//! Start-up of the local model server: the sequence of checks and actions
//! run before the conversation opens, and the loading screen that reports it.

use vstd::prelude::*;

use crate::text::{is_prefix, replace, replace_all, same_text, starts_with};

verus! {

/// The message that ends a successful start-up.
pub open spec fn done_message() -> Seq<char> {
    "CONCLUIDO"@
}

/// The message that ends a failed start-up with the reason `e`.
pub open spec fn fatal_message(e: Seq<char>) -> Seq<char> {
    "ERRO_FATAL: "@ + e
}

/// The loading screen's state after one message of the start-up, from
/// `(inicializado, status)`: `CONCLUIDO` opens the application; a message
/// that begins with `ERRO_FATAL` is shown with that tag turned into `Erro: `;
/// any other message is shown as it is.
pub open spec fn screen_after(inicializado: bool, status: Seq<char>, msg: Seq<char>) -> (bool, Seq<char>) {
    if msg == done_message() {
        (true, status)
    } else if is_prefix("ERRO_FATAL"@, msg) {
        (inicializado, replace_all(msg, "ERRO_FATAL: "@, "Erro: "@))
    } else {
        (inicializado, msg)
    }
}

/// What the loading screen shows: whether start-up has completed, and the
/// latest status line.
pub struct TelaCarregamento {
    pub inicializado: bool,
    pub status: String,
}

impl TelaCarregamento {
    /// The screen before any message.
    pub fn new() -> (t: TelaCarregamento)
        ensures
            !t.inicializado,
            t.status@ == "Iniciando RustOps..."@,
    {
        TelaCarregamento { inicializado: false, status: String::from_str("Iniciando RustOps...") }
    }

    /// Takes one message of the start-up.
    pub fn receber(&mut self, msg: &str)
        ensures
            (final(self).inicializado, final(self).status@) == screen_after(
                old(self).inicializado,
                old(self).status@,
                msg@,
            ),
    {
        if same_text(msg, "CONCLUIDO") {
            self.inicializado = true;
        } else if starts_with(msg, "ERRO_FATAL") {
            self.status = replace(msg, "ERRO_FATAL: ", "Erro: ");
        } else {
            self.status = String::from_str(msg);
        }
    }

    /// Whether the status line reports an error, in which case the screen
    /// shows no spinner and asks to check the connection and restart.
    pub fn mostra_erro(&self) -> (b: bool)
        ensures
            b == is_prefix("Erro:"@, self.status@),
    {
        starts_with(self.status.as_str(), "Erro:")
    }
}

/// Steps of the start-up sequence.
#[derive(PartialEq, Eq, Structural, Clone, Copy, Debug)]
pub enum EtapaSetup {
    Inicio,
    VerificandoInstalacao,
    Instalando,
    VerificandoServico,
    IniciandoServico,
    AguardandoServico,
    ConfigurandoModelo,
    Encerrado,
}

/// What the outside work of the start-up reports back.
pub enum EventoSetup {
    Comecou,
    Instalado(bool),
    Instalacao(Result<(), String>),
    ServicoRodando(bool),
    ServicoIniciado,
    ServicoPronto(bool),
    Modelo(Result<(), String>),
}

/// The outside work that the start-up asks for next.
#[derive(PartialEq, Eq, Structural, Clone, Copy, Debug)]
pub enum OperacaoSetup {
    VerificarInstalacao,
    Instalar,
    VerificarServico,
    IniciarServico,
    AguardarServico(u64),
    ConfigurarModelo,
    Nenhuma,
}

/// One step of the start-up: the next stage, the status messages to report
/// in order, and the work to do.
pub struct PassoSetup {
    pub etapa: EtapaSetup,
    pub avisos: Vec<String>,
    pub operacao: OperacaoSetup,
}

/// The start-up's transitions: from a stage and what the last piece of work
/// reported, the next stage, the messages to report, and the next work.
/// An event that does not belong to the stage changes nothing.
pub open spec fn setup_transition(etapa: EtapaSetup, evento: EventoSetup) -> (EtapaSetup, Seq<Seq<char>>, OperacaoSetup) {
    match (etapa, evento) {
        (EtapaSetup::Inicio, EventoSetup::Comecou) => (
            EtapaSetup::VerificandoInstalacao,
            seq!["Verificando motod de IA..."@],
            OperacaoSetup::VerificarInstalacao,
        ),
        (EtapaSetup::VerificandoInstalacao, EventoSetup::Instalado(true)) => (
            EtapaSetup::VerificandoServico,
            seq!["Iniciando serviço..."@],
            OperacaoSetup::VerificarServico,
        ),
        (EtapaSetup::VerificandoInstalacao, EventoSetup::Instalado(false)) => (
            EtapaSetup::Instalando,
            seq!["Instalando Ollama..."@],
            OperacaoSetup::Instalar,
        ),
        (EtapaSetup::Instalando, EventoSetup::Instalacao(Ok(()))) => (
            EtapaSetup::VerificandoServico,
            seq!["Iniciando serviço..."@],
            OperacaoSetup::VerificarServico,
        ),
        (EtapaSetup::Instalando, EventoSetup::Instalacao(Err(e))) => (
            EtapaSetup::Encerrado,
            seq![fatal_message(e@)],
            OperacaoSetup::Nenhuma,
        ),
        (EtapaSetup::VerificandoServico, EventoSetup::ServicoRodando(true)) => (
            EtapaSetup::ConfigurandoModelo,
            Seq::empty(),
            OperacaoSetup::ConfigurarModelo,
        ),
        (EtapaSetup::VerificandoServico, EventoSetup::ServicoRodando(false)) => (
            EtapaSetup::IniciandoServico,
            Seq::empty(),
            OperacaoSetup::IniciarServico,
        ),
        (EtapaSetup::IniciandoServico, EventoSetup::ServicoIniciado) => (
            EtapaSetup::AguardandoServico,
            Seq::empty(),
            OperacaoSetup::AguardarServico(60),
        ),
        (EtapaSetup::AguardandoServico, EventoSetup::ServicoPronto(true)) => (
            EtapaSetup::ConfigurandoModelo,
            Seq::empty(),
            OperacaoSetup::ConfigurarModelo,
        ),
        (EtapaSetup::AguardandoServico, EventoSetup::ServicoPronto(false)) => (
            EtapaSetup::Encerrado,
            seq![fatal_message("O motor de IA não respondeu a tempo."@)],
            OperacaoSetup::Nenhuma,
        ),
        (EtapaSetup::ConfigurandoModelo, EventoSetup::Modelo(Ok(()))) => (
            EtapaSetup::Encerrado,
            seq![done_message()],
            OperacaoSetup::Nenhuma,
        ),
        (EtapaSetup::ConfigurandoModelo, EventoSetup::Modelo(Err(e))) => (
            EtapaSetup::Encerrado,
            seq![fatal_message(e@)],
            OperacaoSetup::Nenhuma,
        ),
        _ => (etapa, Seq::empty(), OperacaoSetup::Nenhuma),
    }
}

/// The messages as text.
pub open spec fn texts_of(v: Seq<String>) -> Seq<Seq<char>> {
    v.map_values(|s: String| s@)
}

fn fatal(e: &str) -> (r: String)
    ensures
        r@ == fatal_message(e@),
{
    let mut r = String::from_str("ERRO_FATAL: ");
    r.append(e);
    r
}

fn one(s: String) -> (v: Vec<String>)
    ensures
        texts_of(v@) == seq![s@],
{
    let mut v = Vec::new();
    v.push(s);
    assert(texts_of(v@) =~= seq![s@]);
    v
}

fn none() -> (v: Vec<String>)
    ensures
        texts_of(v@) == Seq::<Seq<char>>::empty(),
{
    let v: Vec<String> = Vec::new();
    assert(texts_of(v@) =~= Seq::<Seq<char>>::empty());
    v
}

/// Takes one step of the start-up.
pub fn proximo_passo_setup(etapa: EtapaSetup, evento: EventoSetup) -> (r: PassoSetup)
    ensures
        (r.etapa, texts_of(r.avisos@), r.operacao) == setup_transition(etapa, evento),
{
    match (etapa, evento) {
        (EtapaSetup::Inicio, EventoSetup::Comecou) => PassoSetup {
            etapa: EtapaSetup::VerificandoInstalacao,
            avisos: one(String::from_str("Verificando motod de IA...")),
            operacao: OperacaoSetup::VerificarInstalacao,
        },
        (EtapaSetup::VerificandoInstalacao, EventoSetup::Instalado(instalado)) => {
            if instalado {
                PassoSetup {
                    etapa: EtapaSetup::VerificandoServico,
                    avisos: one(String::from_str("Iniciando serviço...")),
                    operacao: OperacaoSetup::VerificarServico,
                }
            } else {
                PassoSetup {
                    etapa: EtapaSetup::Instalando,
                    avisos: one(String::from_str("Instalando Ollama...")),
                    operacao: OperacaoSetup::Instalar,
                }
            }
        },
        (EtapaSetup::Instalando, EventoSetup::Instalacao(resultado)) => match resultado {
            Ok(()) => PassoSetup {
                etapa: EtapaSetup::VerificandoServico,
                avisos: one(String::from_str("Iniciando serviço...")),
                operacao: OperacaoSetup::VerificarServico,
            },
            Err(e) => PassoSetup {
                etapa: EtapaSetup::Encerrado,
                avisos: one(fatal(e.as_str())),
                operacao: OperacaoSetup::Nenhuma,
            },
        },
        (EtapaSetup::VerificandoServico, EventoSetup::ServicoRodando(rodando)) => {
            if rodando {
                PassoSetup {
                    etapa: EtapaSetup::ConfigurandoModelo,
                    avisos: none(),
                    operacao: OperacaoSetup::ConfigurarModelo,
                }
            } else {
                PassoSetup {
                    etapa: EtapaSetup::IniciandoServico,
                    avisos: none(),
                    operacao: OperacaoSetup::IniciarServico,
                }
            }
        },
        (EtapaSetup::IniciandoServico, EventoSetup::ServicoIniciado) => PassoSetup {
            etapa: EtapaSetup::AguardandoServico,
            avisos: none(),
            operacao: OperacaoSetup::AguardarServico(60),
        },
        (EtapaSetup::AguardandoServico, EventoSetup::ServicoPronto(pronto)) => {
            if pronto {
                PassoSetup {
                    etapa: EtapaSetup::ConfigurandoModelo,
                    avisos: none(),
                    operacao: OperacaoSetup::ConfigurarModelo,
                }
            } else {
                PassoSetup {
                    etapa: EtapaSetup::Encerrado,
                    avisos: one(fatal("O motor de IA não respondeu a tempo.")),
                    operacao: OperacaoSetup::Nenhuma,
                }
            }
        },
        (EtapaSetup::ConfigurandoModelo, EventoSetup::Modelo(resultado)) => match resultado {
            Ok(()) => PassoSetup {
                etapa: EtapaSetup::Encerrado,
                avisos: one(String::from_str("CONCLUIDO")),
                operacao: OperacaoSetup::Nenhuma,
            },
            Err(e) => PassoSetup {
                etapa: EtapaSetup::Encerrado,
                avisos: one(fatal(e.as_str())),
                operacao: OperacaoSetup::Nenhuma,
            },
        },
        _ => PassoSetup { etapa, avisos: none(), operacao: OperacaoSetup::Nenhuma },
    }
}

/// Whether to keep polling the server: the time waited, in whole seconds, is
/// still under the limit.
pub fn continuar_aguardando(decorridos: u64, limite: u64) -> (b: bool)
    ensures
        b == (decorridos < limite),
{
    decorridos < limite
}

/// Whether the server has to be run as a process of its own, after asking
/// the service manager to start it: the request could not be made (`None`)
/// or did not succeed.
pub fn iniciar_processo_direto(servico: Option<bool>) -> (b: bool)
    ensures
        b == (servico != Some(true)),
{
    match servico {
        Some(sucesso) => !sucesso,
        None => true,
    }
}

/// The systems that the installer knows.
#[derive(PartialEq, Eq, Structural, Clone, Copy, Debug)]
pub enum Plataforma {
    Linux,
    Windows,
}

/// The outcome of the installer: `Err` with the launch failure where it could
/// not be started, `Ok` with whether it exited successfully.
pub open spec fn install_outcome(plataforma: Plataforma, execucao: Result<bool, Seq<char>>) -> Result<(), Seq<char>> {
    match execucao {
        Ok(true) => Ok(()),
        Ok(false) => match plataforma {
            Plataforma::Linux => Err("Usuário cancelou a senha de instalação, falhou."@),
            Plataforma::Windows => Err("Usuário cancelou a instalação o processo falhou."@),
        },
        Err(e) => match plataforma {
            Plataforma::Linux => Err("Falha ao executar o pkexec no Linux: "@ + e),
            Plataforma::Windows => Err("Falha ao executar o PowerShell: "@ + e),
        },
    }
}

/// The outcome of running the installer on `plataforma`.
pub fn resultado_instalacao(plataforma: Plataforma, execucao: Result<bool, String>) -> (r: Result<(), String>)
    ensures
        match (r, execucao) {
            (Ok(()), Ok(b)) => install_outcome(plataforma, Ok(b)) == Ok::<(), Seq<char>>(()),
            (Ok(()), Err(e)) => install_outcome(plataforma, Err(e@)) == Ok::<(), Seq<char>>(()),
            (Err(m), Ok(b)) => install_outcome(plataforma, Ok(b)) == Err::<(), Seq<char>>(m@),
            (Err(m), Err(e)) => install_outcome(plataforma, Err(e@)) == Err::<(), Seq<char>>(m@),
        },
{
    match execucao {
        Ok(sucesso) => {
            if sucesso {
                Ok(())
            } else {
                match plataforma {
                    Plataforma::Linux => Err(String::from_str("Usuário cancelou a senha de instalação, falhou.")),
                    Plataforma::Windows => Err(String::from_str("Usuário cancelou a instalação o processo falhou.")),
                }
            }
        },
        Err(e) => {
            let prefixo = match plataforma {
                Plataforma::Linux => "Falha ao executar o pkexec no Linux: ",
                Plataforma::Windows => "Falha ao executar o PowerShell: ",
            };
            let mut m = String::from_str(prefixo);
            m.append(e.as_str());
            Err(m)
        },
    }
}


/// A start-up that has not ended reports at most one status message per step.
/// The step that ends it reports exactly one message, `CONCLUIDO` or one
/// beginning with `ERRO_FATAL: `, and asks for no more work; every other
/// message is neither of these, so the loading screen shows it as a plain
/// status. Once ended, the start-up stays ended and silent.
pub proof fn lei_setup_um_desfecho(etapa: EtapaSetup, evento: EventoSetup)
    ensures
        ({
            let (seguinte, avisos, operacao) = setup_transition(etapa, evento);
            &&& avisos.len() <= 1
            &&& etapa != EtapaSetup::Encerrado && seguinte == EtapaSetup::Encerrado ==> {
                &&& avisos.len() == 1
                &&& operacao == OperacaoSetup::Nenhuma
                &&& avisos[0] == done_message() || is_prefix("ERRO_FATAL: "@, avisos[0])
            }
            &&& seguinte != EtapaSetup::Encerrado ==> forall|k: int|
                0 <= k < avisos.len() ==> avisos[k] != done_message() && !is_prefix(
                    "ERRO_FATAL"@,
                    #[trigger] avisos[k],
                )
            &&& etapa == EtapaSetup::Encerrado ==> seguinte == EtapaSetup::Encerrado && avisos.len() == 0
                && operacao == OperacaoSetup::Nenhuma
        }),
{
    reveal_strlit("CONCLUIDO");
    reveal_strlit("ERRO_FATAL");
    reveal_strlit("ERRO_FATAL: ");
    reveal_strlit("Verificando motod de IA...");
    reveal_strlit("Iniciando serviço...");
    reveal_strlit("Instalando Ollama...");
    let (seguinte, avisos, operacao) = setup_transition(etapa, evento);
    if seguinte == EtapaSetup::Encerrado && etapa != EtapaSetup::Encerrado && avisos.len() == 1
        && avisos[0] != done_message() {
        let e = avisos[0].skip(12);
        assert(avisos[0] == fatal_message(e)) by {
            assert(avisos[0] =~= "ERRO_FATAL: "@ + avisos[0].skip(12));
        }
        assert(avisos[0].take(12) =~= "ERRO_FATAL: "@);
    }
    assert forall|k: int|
        seguinte != EtapaSetup::Encerrado && 0 <= k < avisos.len() implies avisos[k] != done_message()
        && !is_prefix("ERRO_FATAL"@, #[trigger] avisos[k]) by {
        assert(avisos[k][0] != 'E');
        assert(avisos[k][0] != 'C');
        assert("ERRO_FATAL"@[0] == 'E');
        if is_prefix("ERRO_FATAL"@, avisos[k]) {
            assert(avisos[k].take(10)[0] == avisos[k][0]);
        }
    }
}

/// The loading screen reflects how the start-up ended: `CONCLUIDO` opens the
/// application and keeps the status line; a failure with reason `e` is shown
/// as `Erro: ` followed by the reason, so the screen reports an error.
pub proof fn lei_tela_reflete_desfecho(inicializado: bool, status: Seq<char>, e: Seq<char>)
    ensures
        screen_after(inicializado, status, done_message()) == (true, status),
        screen_after(inicializado, status, fatal_message(e)) == (
            inicializado,
            "Erro: "@ + replace_all(e, "ERRO_FATAL: "@, "Erro: "@),
        ),
        is_prefix("Erro:"@, screen_after(inicializado, status, fatal_message(e)).1),
{
    reveal_strlit("CONCLUIDO");
    reveal_strlit("ERRO_FATAL");
    reveal_strlit("ERRO_FATAL: ");
    reveal_strlit("Erro: ");
    reveal_strlit("Erro:");
    let m = fatal_message(e);
    assert(m.len() >= 12);
    assert(m != done_message()) by {
        assert(m[0] == 'E');
    }
    assert(m.take(10) =~= "ERRO_FATAL"@);
    assert(m.take(12) =~= "ERRO_FATAL: "@);
    assert(m.skip(12) =~= e);
    let r = "Erro: "@ + replace_all(e, "ERRO_FATAL: "@, "Erro: "@);
    assert(r.take(5) =~= "Erro:"@);
}

/// The messages that end a start-up on the loading screen: `CONCLUIDO`, or
/// one beginning with `ERRO_FATAL`.
pub open spec fn desfecho(m: Seq<char>) -> bool {
    m == done_message() || is_prefix("ERRO_FATAL"@, m)
}

/// How many of the messages end a start-up.
pub open spec fn desfechos(ms: Seq<Seq<char>>) -> nat
    decreases ms.len(),
{
    if ms.len() == 0 {
        0
    } else {
        desfechos(ms.drop_last()) + if desfecho(ms.last()) {
            1nat
        } else {
            0nat
        }
    }
}

/// A whole run of the start-up from `etapa` over the events, in order: the
/// stage reached and every message reported, in order.
pub open spec fn setup_run(etapa: EtapaSetup, eventos: Seq<EventoSetup>) -> (EtapaSetup, Seq<Seq<char>>)
    decreases eventos.len(),
{
    if eventos.len() == 0 {
        (etapa, Seq::empty())
    } else {
        let (seguinte, avisos, _) = setup_transition(etapa, eventos[0]);
        let (fim, resto) = setup_run(seguinte, eventos.drop_first());
        (fim, avisos + resto)
    }
}

proof fn lemma_desfechos_concat(a: Seq<Seq<char>>, b: Seq<Seq<char>>)
    ensures
        desfechos(a + b) == desfechos(a) + desfechos(b),
    decreases b.len(),
{
    if b.len() == 0 {
        assert(a + b =~= a);
    } else {
        lemma_desfechos_concat(a, b.drop_last());
        assert((a + b).drop_last() =~= a + b.drop_last());
        assert((a + b).last() == b.last());
    }
}

proof fn lemma_prefixo_fatal(m: Seq<char>)
    requires
        is_prefix("ERRO_FATAL: "@, m),
    ensures
        desfecho(m),
{
    reveal_strlit("ERRO_FATAL: ");
    reveal_strlit("ERRO_FATAL");
    assert(m.take(10) =~= "ERRO_FATAL"@) by {
        assert forall|k: int| 0 <= k < 10 implies m.take(10)[k] == "ERRO_FATAL"@[k] by {
            assert(m.take(12)[k] == m[k]);
        }
    }
}

/// Over a whole run of the start-up, whatever the events: a run from a
/// stage that has not ended reports no ending message while it has not
/// ended, and exactly one once it has, which is then its last message; a run
/// from the ended stage stays there and reports nothing.
pub proof fn lei_setup_execucao(etapa: EtapaSetup, eventos: Seq<EventoSetup>)
    ensures
        ({
            let (fim, mensagens) = setup_run(etapa, eventos);
            &&& etapa == EtapaSetup::Encerrado ==> fim == EtapaSetup::Encerrado && mensagens.len() == 0
            &&& etapa != EtapaSetup::Encerrado && fim != EtapaSetup::Encerrado ==> desfechos(mensagens) == 0
            &&& etapa != EtapaSetup::Encerrado && fim == EtapaSetup::Encerrado ==> {
                &&& desfechos(mensagens) == 1
                &&& mensagens.len() > 0
                &&& desfecho(mensagens.last())
            }
        }),
    decreases eventos.len(),
{
    if eventos.len() > 0 {
        let (seguinte, avisos, _) = setup_transition(etapa, eventos[0]);
        let (fim, resto) = setup_run(seguinte, eventos.drop_first());
        lei_setup_um_desfecho(etapa, eventos[0]);
        lei_setup_execucao(seguinte, eventos.drop_first());
        lemma_desfechos_concat(avisos, resto);
        if avisos.len() == 1 {
            assert(avisos.drop_last() =~= Seq::<Seq<char>>::empty());
            assert(avisos.last() == avisos[0]);
        }
        if etapa != EtapaSetup::Encerrado && seguinte == EtapaSetup::Encerrado {
            if avisos[0] != done_message() {
                lemma_prefixo_fatal(avisos[0]);
            }
            assert(desfechos(avisos) == 1);
            assert(avisos + resto =~= avisos);
        } else if etapa != EtapaSetup::Encerrado {
            assert(seguinte != EtapaSetup::Encerrado);
            if avisos.len() == 1 {
                assert(!desfecho(avisos[0]));
                assert(desfechos(avisos.drop_last()) == 0);
                assert(desfechos(avisos) == 0);
            } else {
                assert(avisos.len() == 0);
                assert(desfechos(avisos) == 0);
            }
            if fim == EtapaSetup::Encerrado {
                assert((avisos + resto).last() == resto.last());
            }
        } else {
            assert(avisos + resto =~= resto);
        }
    }
}

/// Whether `relato` is what the work `operacao` reports back.
pub open spec fn relata(operacao: OperacaoSetup, relato: EventoSetup) -> bool {
    match (operacao, relato) {
        (OperacaoSetup::VerificarInstalacao, EventoSetup::Instalado(_)) => true,
        (OperacaoSetup::Instalar, EventoSetup::Instalacao(_)) => true,
        (OperacaoSetup::VerificarServico, EventoSetup::ServicoRodando(_)) => true,
        (OperacaoSetup::IniciarServico, EventoSetup::ServicoIniciado) => true,
        (OperacaoSetup::AguardarServico(_), EventoSetup::ServicoPronto(_)) => true,
        (OperacaoSetup::ConfigurarModelo, EventoSetup::Modelo(_)) => true,
        _ => false,
    }
}

/// Every step that asks for work moves to a stage that takes that work's
/// report: whatever the report says, it moves the start-up on to another
/// stage instead of being ignored.
pub proof fn lei_setup_operacao_aceita(etapa: EtapaSetup, evento: EventoSetup, relato: EventoSetup)
    requires
        setup_transition(etapa, evento).2 != OperacaoSetup::Nenhuma,
        relata(setup_transition(etapa, evento).2, relato),
    ensures
        setup_transition(setup_transition(etapa, evento).0, relato).0 != setup_transition(etapa, evento).0,
{
}

/// The events of a start-up in which everything succeeds: Ollama installed
/// already or installed now, the service running already or started and
/// ready in time, and the model prepared.
pub open spec fn eventos_de_sucesso(instalado: bool, rodando: bool) -> Seq<EventoSetup> {
    seq![EventoSetup::Comecou, EventoSetup::Instalado(instalado)] + (if instalado {
        Seq::empty()
    } else {
        seq![EventoSetup::Instalacao(Ok(()))]
    }) + seq![EventoSetup::ServicoRodando(rodando)] + (if rodando {
        Seq::empty()
    } else {
        seq![EventoSetup::ServicoIniciado, EventoSetup::ServicoPronto(true)]
    }) + seq![EventoSetup::Modelo(Ok(()))]
}

proof fn lemma_run_passo(etapa: EtapaSetup, evento: EventoSetup, resto: Seq<EventoSetup>)
    ensures
        setup_run(etapa, seq![evento] + resto) == ({
            let (seguinte, avisos, _) = setup_transition(etapa, evento);
            let (fim, depois) = setup_run(seguinte, resto);
            (fim, avisos + depois)
        }),
{
    let evs = seq![evento] + resto;
    assert(evs[0] == evento);
    assert(evs.drop_first() =~= resto);
}

/// A start-up in which every piece of work succeeds ends, on every path, with
/// `CONCLUIDO` as its last message.
pub proof fn lei_setup_sucesso(instalado: bool, rodando: bool)
    ensures
        setup_run(EtapaSetup::Inicio, eventos_de_sucesso(instalado, rodando)).0 == EtapaSetup::Encerrado,
        setup_run(EtapaSetup::Inicio, eventos_de_sucesso(instalado, rodando)).1.len() > 0,
        setup_run(EtapaSetup::Inicio, eventos_de_sucesso(instalado, rodando)).1.last() == done_message(),
{
    let fim = seq![EventoSetup::Modelo(Ok(()))];
    let espera = if rodando {
        fim
    } else {
        seq![EventoSetup::ServicoIniciado] + (seq![EventoSetup::ServicoPronto(true)] + fim)
    };
    let servico = seq![EventoSetup::ServicoRodando(rodando)] + espera;
    let instalacao = if instalado {
        servico
    } else {
        seq![EventoSetup::Instalacao(Ok(()))] + servico
    };
    let todos = seq![EventoSetup::Comecou] + (seq![EventoSetup::Instalado(instalado)] + instalacao);
    assert(todos =~= eventos_de_sucesso(instalado, rodando));
    assert(setup_run(EtapaSetup::Encerrado, Seq::<EventoSetup>::empty()) == (EtapaSetup::Encerrado, Seq::<Seq<char>>::empty()));
    assert(fim =~= seq![EventoSetup::Modelo(Ok(()))] + Seq::<EventoSetup>::empty());
    lemma_run_passo(EtapaSetup::ConfigurandoModelo, EventoSetup::Modelo(Ok(())), Seq::empty());
    let r_cm = setup_run(EtapaSetup::ConfigurandoModelo, fim);
    assert(r_cm.0 == EtapaSetup::Encerrado && r_cm.1 =~= seq![done_message()]);
    if !rodando {
        lemma_run_passo(EtapaSetup::AguardandoServico, EventoSetup::ServicoPronto(true), fim);
        lemma_run_passo(
            EtapaSetup::IniciandoServico,
            EventoSetup::ServicoIniciado,
            seq![EventoSetup::ServicoPronto(true)] + fim,
        );
        assert(setup_run(EtapaSetup::IniciandoServico, espera).1 =~= seq![done_message()]);
    }
    lemma_run_passo(EtapaSetup::VerificandoServico, EventoSetup::ServicoRodando(rodando), espera);
    let r_vs = setup_run(EtapaSetup::VerificandoServico, servico);
    assert(r_vs.0 == EtapaSetup::Encerrado && r_vs.1 =~= seq![done_message()]);
    if !instalado {
        lemma_run_passo(EtapaSetup::Instalando, EventoSetup::Instalacao(Ok(())), servico);
    }
    lemma_run_passo(EtapaSetup::VerificandoInstalacao, EventoSetup::Instalado(instalado), instalacao);
    lemma_run_passo(EtapaSetup::Inicio, EventoSetup::Comecou, seq![EventoSetup::Instalado(instalado)] + instalacao);
    let r = setup_run(EtapaSetup::Inicio, todos);
    assert(r.0 == EtapaSetup::Encerrado);
    assert(r.1.last() == done_message());
}

/// An installer that ran and exited successfully installs Ollama, on every
/// system; one that exited unsuccessfully, or could not be started, is a
/// failure, and a launch failure keeps its reason at the end of the message.
pub proof fn lei_instalacao(plataforma: Plataforma, sucesso: bool, e: Seq<char>)
    ensures
        install_outcome(plataforma, Ok(true)) == Ok::<(), Seq<char>>(()),
        install_outcome(plataforma, Ok(false)) is Err,
        install_outcome(plataforma, Err(e)) is Err,
        ({
            let m = install_outcome(plataforma, Err(e))->Err_0;
            m.len() >= e.len() && m.skip(m.len() - e.len()) == e
        }),
{
    let m = install_outcome(plataforma, Err(e))->Err_0;
    assert(m.skip(m.len() - e.len()) =~= e);
}

} // verus!
