use rustops::model::{
    arquivo_modelfile, conteudo_modelfile, lista_tem_rustops, modelo_base, proximo_passo_modelo,
    EtapaModelo, EventoModelo, OperacaoModelo,
};
use rustops::startup::{
    continuar_aguardando, iniciar_processo_direto, proximo_passo_setup, resultado_instalacao,
    EtapaSetup, EventoSetup, OperacaoSetup, Plataforma, TelaCarregamento,
};

#[test]
fn loading_screen_messages() {
    let mut t = TelaCarregamento::new();
    assert!(!t.inicializado);
    assert_eq!(t.status, "Iniciando RustOps...");
    assert!(!t.mostra_erro());
    t.receber("Iniciando serviço...");
    assert_eq!(t.status, "Iniciando serviço...");
    assert!(!t.inicializado);
    t.receber("ERRO_FATAL: O motor de IA não respondeu a tempo.");
    assert_eq!(t.status, "Erro: O motor de IA não respondeu a tempo.");
    assert!(t.mostra_erro());
    assert!(!t.inicializado);
}

#[test]
fn loading_screen_done() {
    let mut t = TelaCarregamento::new();
    t.receber("CONCLUIDO");
    assert!(t.inicializado);
    assert_eq!(t.status, "Iniciando RustOps...");
}

#[test]
fn loading_screen_tag_without_space() {
    let mut t = TelaCarregamento::new();
    t.receber("ERRO_FATALx");
    assert_eq!(t.status, "ERRO_FATALx");
    assert!(!t.mostra_erro());
}

fn mensagens(v: &[String]) -> Vec<&str> {
    v.iter().map(|s| s.as_str()).collect()
}

#[test]
fn setup_everything_present() {
    let p = proximo_passo_setup(EtapaSetup::Inicio, EventoSetup::Comecou);
    assert_eq!(p.etapa, EtapaSetup::VerificandoInstalacao);
    assert_eq!(mensagens(&p.avisos), vec!["Verificando motod de IA..."]);
    assert_eq!(p.operacao, OperacaoSetup::VerificarInstalacao);
    let p = proximo_passo_setup(p.etapa, EventoSetup::Instalado(true));
    assert_eq!(mensagens(&p.avisos), vec!["Iniciando serviço..."]);
    assert_eq!(p.operacao, OperacaoSetup::VerificarServico);
    let p = proximo_passo_setup(p.etapa, EventoSetup::ServicoRodando(true));
    assert!(p.avisos.is_empty());
    assert_eq!(p.operacao, OperacaoSetup::ConfigurarModelo);
    let p = proximo_passo_setup(p.etapa, EventoSetup::Modelo(Ok(())));
    assert_eq!(p.etapa, EtapaSetup::Encerrado);
    assert_eq!(mensagens(&p.avisos), vec!["CONCLUIDO"]);
    assert_eq!(p.operacao, OperacaoSetup::Nenhuma);
}

#[test]
fn setup_installs_and_starts() {
    let p = proximo_passo_setup(EtapaSetup::VerificandoInstalacao, EventoSetup::Instalado(false));
    assert_eq!(mensagens(&p.avisos), vec!["Instalando Ollama..."]);
    assert_eq!(p.operacao, OperacaoSetup::Instalar);
    let p = proximo_passo_setup(p.etapa, EventoSetup::Instalacao(Ok(())));
    assert_eq!(p.operacao, OperacaoSetup::VerificarServico);
    let p = proximo_passo_setup(p.etapa, EventoSetup::ServicoRodando(false));
    assert_eq!(p.operacao, OperacaoSetup::IniciarServico);
    let p = proximo_passo_setup(p.etapa, EventoSetup::ServicoIniciado);
    assert_eq!(p.operacao, OperacaoSetup::AguardarServico(60));
    let p = proximo_passo_setup(p.etapa, EventoSetup::ServicoPronto(true));
    assert_eq!(p.operacao, OperacaoSetup::ConfigurarModelo);
}

#[test]
fn setup_failures() {
    let p = proximo_passo_setup(EtapaSetup::Instalando, EventoSetup::Instalacao(Err("negado".to_string())));
    assert_eq!(p.etapa, EtapaSetup::Encerrado);
    assert_eq!(mensagens(&p.avisos), vec!["ERRO_FATAL: negado"]);
    let p = proximo_passo_setup(EtapaSetup::AguardandoServico, EventoSetup::ServicoPronto(false));
    assert_eq!(mensagens(&p.avisos), vec!["ERRO_FATAL: O motor de IA não respondeu a tempo."]);
    let p = proximo_passo_setup(EtapaSetup::ConfigurandoModelo, EventoSetup::Modelo(Err("m".to_string())));
    assert_eq!(mensagens(&p.avisos), vec!["ERRO_FATAL: m"]);
    let mut t = TelaCarregamento::new();
    t.receber(&p.avisos[0]);
    assert_eq!(t.status, "Erro: m");
}

#[test]
fn setup_ignores_foreign_events() {
    let p = proximo_passo_setup(EtapaSetup::Encerrado, EventoSetup::Comecou);
    assert_eq!(p.etapa, EtapaSetup::Encerrado);
    assert!(p.avisos.is_empty());
    assert_eq!(p.operacao, OperacaoSetup::Nenhuma);
    let p = proximo_passo_setup(EtapaSetup::Inicio, EventoSetup::ServicoIniciado);
    assert_eq!(p.etapa, EtapaSetup::Inicio);
    assert_eq!(p.operacao, OperacaoSetup::Nenhuma);
}

#[test]
fn waiting_and_serving() {
    assert!(continuar_aguardando(59, 60));
    assert!(!continuar_aguardando(60, 60));
    assert!(iniciar_processo_direto(None));
    assert!(iniciar_processo_direto(Some(false)));
    assert!(!iniciar_processo_direto(Some(true)));
}

#[test]
fn installer_outcomes() {
    assert_eq!(resultado_instalacao(Plataforma::Linux, Ok(true)), Ok(()));
    assert_eq!(
        resultado_instalacao(Plataforma::Linux, Ok(false)),
        Err("Usuário cancelou a senha de instalação, falhou.".to_string())
    );
    assert_eq!(
        resultado_instalacao(Plataforma::Linux, Err("no pkexec".to_string())),
        Err("Falha ao executar o pkexec no Linux: no pkexec".to_string())
    );
    assert_eq!(
        resultado_instalacao(Plataforma::Windows, Ok(false)),
        Err("Usuário cancelou a instalação o processo falhou.".to_string())
    );
    assert_eq!(
        resultado_instalacao(Plataforma::Windows, Err("e".to_string())),
        Err("Falha ao executar o PowerShell: e".to_string())
    );
}

#[test]
fn model_constants() {
    assert_eq!(modelo_base(), "nchapman/dolphin3.0-qwen2.5:3b");
    assert_eq!(arquivo_modelfile(), "ModelFile_rustops_temp");
    let c = conteudo_modelfile("nchapman/dolphin3.0-qwen2.5:3b");
    assert!(c.starts_with("FROM nchapman/dolphin3.0-qwen2.5:3b\n        PARAMETER temperature 0.3\n"));
    assert!(c.contains("PARAMETER num_ctx 4096"));
    assert!(c.ends_with("Seja direto, técnico e instrutivo.\"\n    "));
}

#[test]
fn model_already_present() {
    assert!(lista_tem_rustops("NAME ID\nrustops:latest 1\n"));
    assert!(!lista_tem_rustops("NAME ID\n"));
    let p = proximo_passo_modelo(EtapaModelo::Inicio, EventoModelo::Comecou);
    assert_eq!(p.operacao, OperacaoModelo::VerificarServidor);
    let p = proximo_passo_modelo(p.etapa, EventoModelo::ServidorRodando(true));
    assert_eq!(p.operacao, OperacaoModelo::ListarModelos);
    let p = proximo_passo_modelo(p.etapa, EventoModelo::Listagem(Ok(b"NAME\nrustops:latest\n".to_vec())));
    assert_eq!(p.etapa, EtapaModelo::Encerrado);
    assert_eq!(p.resultado, Some(Ok(())));
    assert!(p.avisos.is_empty());
}

#[test]
fn model_invalid_utf8_listing() {
    let p = proximo_passo_modelo(
        EtapaModelo::Listando,
        EventoModelo::Listagem(Ok(vec![0xff, b'r', b'u', b's', b't', b'o', b'p', b's'])),
    );
    assert_eq!(p.resultado, Some(Ok(())));
    let p = proximo_passo_modelo(EtapaModelo::Listando, EventoModelo::Listagem(Ok(vec![0xff, b'x'])));
    assert_eq!(p.resultado, None);
    assert_eq!(p.operacao, OperacaoModelo::BaixarModeloBase);
}

#[test]
fn model_full_preparation() {
    let p = proximo_passo_modelo(EtapaModelo::Listando, EventoModelo::Listagem(Ok(b"NAME\n".to_vec())));
    assert_eq!(p.avisos, vec!["Baixando pacotes de IA (~5GB)... Isso é feito apenas uma vez.".to_string()]);
    assert_eq!(p.operacao, OperacaoModelo::BaixarModeloBase);
    let p = proximo_passo_modelo(p.etapa, EventoModelo::Download(Ok(true)));
    assert_eq!(p.avisos, vec!["Configurando modelo RustOps...".to_string()]);
    assert_eq!(p.operacao, OperacaoModelo::EscreverModelfile);
    let p = proximo_passo_modelo(p.etapa, EventoModelo::Escrita(Ok(())));
    assert_eq!(p.operacao, OperacaoModelo::CriarModelo);
    let p = proximo_passo_modelo(p.etapa, EventoModelo::Criacao(Ok(true)));
    assert_eq!(p.etapa, EtapaModelo::Removendo(true));
    assert_eq!(p.operacao, OperacaoModelo::RemoverModelfile);
    let p = proximo_passo_modelo(p.etapa, EventoModelo::Removido);
    assert_eq!(p.resultado, Some(Ok(())));
}

#[test]
fn model_failures() {
    let p = proximo_passo_modelo(EtapaModelo::VerificandoServidor, EventoModelo::ServidorRodando(false));
    assert_eq!(p.resultado, Some(Err("O servidor Ollama não está respondendo.".to_string())));
    let p = proximo_passo_modelo(EtapaModelo::Listando, EventoModelo::Listagem(Err("sem ollama".to_string())));
    assert_eq!(p.resultado, Some(Err("sem ollama".to_string())));
    let p = proximo_passo_modelo(EtapaModelo::Baixando, EventoModelo::Download(Err("x".to_string())));
    assert_eq!(p.resultado, Some(Err("Falha ao incovar o comando pull: x".to_string())));
    let p = proximo_passo_modelo(EtapaModelo::Baixando, EventoModelo::Download(Ok(false)));
    assert_eq!(p.resultado, Some(Err("Falha na conexão ou no download do motor de IA.".to_string())));
    let p = proximo_passo_modelo(EtapaModelo::EscrevendoModelfile, EventoModelo::Escrita(Err("disco".to_string())));
    assert_eq!(p.resultado, Some(Err("disco".to_string())));
    let p = proximo_passo_modelo(EtapaModelo::Criando, EventoModelo::Criacao(Err("c".to_string())));
    assert_eq!(p.resultado, Some(Err("c".to_string())));
    assert_eq!(p.operacao, OperacaoModelo::Nenhuma);
    let p = proximo_passo_modelo(EtapaModelo::Removendo(false), EventoModelo::Removido);
    assert_eq!(p.resultado, Some(Err("Falha ao configurar o modelo RustOps.".to_string())));
}
