//! The conversations of the application: a list of sessions, each with an
//! id, a title and its messages, one of them active.

use vstd::prelude::*;

use crate::chat::{
    aplicar_pedaco, apply_chunk, end_marker, exchange_opened, iniciar_envio, said, texts,
    ChatMessage, MessageText,
};
use crate::text::{decimal, push_decimal};

verus! {

/// One conversation.
pub struct Sessao {
    pub id: u64,
    pub titulo: String,
    pub mensagens: Vec<ChatMessage>,
}

/// A conversation as text.
pub struct SessaoTexto {
    pub id: u64,
    pub titulo: Seq<char>,
    pub mensagens: Seq<MessageText>,
}

impl View for Sessao {
    type V = SessaoTexto;

    open spec fn view(&self) -> SessaoTexto {
        SessaoTexto { id: self.id, titulo: self.titulo@, mensagens: texts(self.mensagens@) }
    }
}

/// The sessions as text.
pub open spec fn sessoes_texto(v: Seq<Sessao>) -> Seq<SessaoTexto> {
    v.map_values(|s: Sessao| s@)
}

/// The store as text: the sessions in order, and the id of the active one.
pub struct BancoTexto {
    pub sessoes: Seq<SessaoTexto>,
    pub ativo: u64,
}

/// No two sessions share an id.
pub open spec fn ids_distintos(s: Seq<SessaoTexto>) -> bool {
    forall|i: int, j: int| 0 <= i < s.len() && 0 <= j < s.len() && i != j ==> s[i].id != s[j].id
}

/// Some session has the id `id`.
pub open spec fn tem_id(s: Seq<SessaoTexto>, id: u64) -> bool {
    exists|i: int| 0 <= i < s.len() && s[i].id == id
}

/// A store holds at least one session, no two with the same id, and its
/// active id names one of them.
pub open spec fn banco_valido(b: BancoTexto) -> bool {
    b.sessoes.len() > 0 && ids_distintos(b.sessoes) && tem_id(b.sessoes, b.ativo)
}

/// The position of the session with id `id`.
pub open spec fn posicao(s: Seq<SessaoTexto>, id: u64) -> int {
    choose|i: int| 0 <= i < s.len() && s[i].id == id
}

/// The greatest id, 0 where there is no session.
pub open spec fn maior_id(s: Seq<SessaoTexto>) -> nat
    decreases s.len(),
{
    if s.len() == 0 {
        0
    } else {
        let m = maior_id(s.drop_last());
        if s.last().id > m {
            s.last().id as nat
        } else {
            m
        }
    }
}

/// The title of the session with id `id`.
pub open spec fn titulo_padrao(id: u64) -> Seq<char> {
    "Chat "@ + decimal(id as nat)
}

/// A new, empty session with id `id`.
pub open spec fn sessao_nova(id: u64) -> SessaoTexto {
    SessaoTexto { id, titulo: titulo_padrao(id), mensagens: Seq::empty() }
}

/// The store with the active session's messages replaced by `m`.
pub open spec fn com_mensagens_ativas(b: BancoTexto, m: Seq<MessageText>) -> BancoTexto {
    let i = posicao(b.sessoes, b.ativo);
    BancoTexto {
        sessoes: b.sessoes.update(i, SessaoTexto { id: b.sessoes[i].id, titulo: b.sessoes[i].titulo, mensagens: m }),
        ativo: b.ativo,
    }
}

/// The messages of the active session.
pub open spec fn mensagens_ativas(b: BancoTexto) -> Seq<MessageText> {
    b.sessoes[posicao(b.sessoes, b.ativo)].mensagens
}

proof fn lemma_posicao(s: Seq<SessaoTexto>, id: u64, i: int)
    requires
        ids_distintos(s),
        0 <= i < s.len(),
        s[i].id == id,
    ensures
        posicao(s, id) == i,
{
    let k = posicao(s, id);
    assert(0 <= k < s.len() && s[k].id == id);
}

proof fn lemma_maior_id(s: Seq<SessaoTexto>)
    ensures
        forall|i: int| 0 <= i < s.len() ==> s[i].id <= maior_id(s),
        maior_id(s) <= u64::MAX,
    decreases s.len(),
{
    if s.len() > 0 {
        lemma_maior_id(s.drop_last());
        assert forall|i: int| 0 <= i < s.len() implies s[i].id <= maior_id(s) by {
            if i < s.len() - 1 {
                assert(s[i] == s.drop_last()[i]);
            }
        }
    }
}

/// The conversations, one of them active.
pub struct AppDatabase {
    sessoes: Vec<Sessao>,
    ativo: u64,
}

impl View for AppDatabase {
    type V = BancoTexto;

    closed spec fn view(&self) -> BancoTexto {
        BancoTexto { sessoes: sessoes_texto(self.sessoes@), ativo: self.ativo }
    }
}

impl AppDatabase {
    /// Every store is valid.
    #[verifier::type_invariant]
    closed spec fn valido(self) -> bool {
        banco_valido(self@)
    }

    /// A store with one empty session, id 1, active.
    pub fn novo() -> (b: AppDatabase)
        ensures
            b@ == (BancoTexto { sessoes: seq![sessao_nova(1)], ativo: 1 }),
            banco_valido(b@),
    {
        let mut titulo = String::from_str("Chat ");
        push_decimal(&mut titulo, 1);
        let mut sessoes: Vec<Sessao> = Vec::new();
        sessoes.push(Sessao { id: 1, titulo, mensagens: Vec::new() });
        proof {
            assert(texts(Seq::<ChatMessage>::empty()) =~= Seq::<MessageText>::empty());
            assert(sessoes_texto(sessoes@) =~= seq![sessao_nova(1)]);
            assert(sessoes_texto(sessoes@)[0].id == 1);
        }
        AppDatabase { sessoes, ativo: 1 }
    }

    /// A store of the given sessions with `ativo` active, where they make a
    /// valid store; `None` otherwise.
    pub fn restaurar(sessoes: Vec<Sessao>, ativo: u64) -> (r: Option<AppDatabase>)
        ensures
            r is Some <==> banco_valido(BancoTexto { sessoes: sessoes_texto(sessoes@), ativo }),
            r matches Some(b) ==> b@ == (BancoTexto { sessoes: sessoes_texto(sessoes@), ativo }),
    {
        let ghost st = sessoes_texto(sessoes@);
        if sessoes.len() == 0 {
            return None;
        }
        let mut achou = false;
        let mut i: usize = 0;
        while i < sessoes.len()
            invariant
                st == sessoes_texto(sessoes@),
                i <= sessoes.len(),
                forall|a: int, c: int| 0 <= a < i && 0 <= c < sessoes.len() && a != c ==> st[a].id != st[c].id,
                achou == (exists|a: int| 0 <= a < i && st[a].id == ativo),
            decreases sessoes.len() - i,
        {
            let mut j: usize = 0;
            while j < sessoes.len()
                invariant
                    st == sessoes_texto(sessoes@),
                    i < sessoes.len(),
                    j <= sessoes.len(),
                    forall|c: int| 0 <= c < j && c != i ==> st[i as int].id != st[c].id,
                decreases sessoes.len() - j,
            {
                if j != i && sessoes[j].id == sessoes[i].id {
                    assert(st[i as int].id == st[j as int].id);
                    return None;
                }
                j = j + 1;
            }
            assert forall|c: int| 0 <= c < sessoes.len() && c != i implies st[i as int].id != st[c].id by {
            }
            assert(st[i as int].id == sessoes@[i as int].id);
            if sessoes[i].id == ativo {
                achou = true;
            }
            i = i + 1;
        }
        if !achou {
            return None;
        }
        Some(AppDatabase { sessoes, ativo })
    }

    /// The sessions, in order.
    pub fn sessoes(&self) -> (r: &Vec<Sessao>)
        ensures
            sessoes_texto(r@) == self@.sessoes,
    {
        &self.sessoes
    }

    /// The id of the active session.
    pub fn sessao_ativa_id(&self) -> (r: u64)
        ensures
            r == self@.ativo,
    {
        self.ativo
    }

    fn indice_ativo(&self) -> (i: usize)
        ensures
            i < self.sessoes.len(),
            i == posicao(self@.sessoes, self@.ativo),
    {
        proof {
            use_type_invariant(self);
        }
        let ghost st = self@.sessoes;
        let mut i: usize = 0;
        while i < self.sessoes.len()
            invariant
                st == sessoes_texto(self.sessoes@),
                banco_valido(self@),
                i <= self.sessoes.len(),
                forall|k: int| 0 <= k < i ==> st[k].id != self.ativo,
            decreases self.sessoes.len() - i,
        {
            if self.sessoes[i].id == self.ativo {
                proof {
                    lemma_posicao(st, self.ativo, i as int);
                }
                return i;
            }
            i = i + 1;
        }
        assert(false);
        0
    }

    fn procurar(&self, id: u64) -> (r: Option<usize>)
        ensures
            r is Some <==> tem_id(self@.sessoes, id),
            r matches Some(i) ==> i < self.sessoes.len() && self@.sessoes[i as int].id == id,
    {
        let ghost st = self@.sessoes;
        let mut i: usize = 0;
        while i < self.sessoes.len()
            invariant
                st == sessoes_texto(self.sessoes@),
                i <= self.sessoes.len(),
                forall|k: int| 0 <= k < i ==> st[k].id != id,
            decreases self.sessoes.len() - i,
        {
            if self.sessoes[i].id == id {
                assert(st[i as int].id == id);
                return Some(i);
            }
            i = i + 1;
        }
        None
    }

    /// Takes the sessions out, leaving in their place a single empty session
    /// under the active id, so that the store stays valid meanwhile.
    fn retirar(&mut self) -> (v: Vec<Sessao>)
        ensures
            sessoes_texto(v@) == old(self)@.sessoes,
            final(self)@.ativo == old(self)@.ativo,
    {
        let mut v: Vec<Sessao> = Vec::new();
        v.push(Sessao { id: self.ativo, titulo: String::new(), mensagens: Vec::new() });
        proof {
            assert(sessoes_texto(v@)[0].id == self.ativo);
        }
        std::mem::swap(&mut v, &mut self.sessoes);
        v
    }

    /// The active session.
    pub fn sessao_ativa(&self) -> (s: &Sessao)
        ensures
            s@ == self@.sessoes[posicao(self@.sessoes, self@.ativo)],
    {
        let i = self.indice_ativo();
        &self.sessoes[i]
    }

    /// Makes the session with id `id` active, where there is one. Returns
    /// whether there was.
    pub fn selecionar(&mut self, id: u64) -> (r: bool)
        ensures
            r == tem_id(old(self)@.sessoes, id),
            final(self)@ == (if r {
                BancoTexto { sessoes: old(self)@.sessoes, ativo: id }
            } else {
                old(self)@
            }),
            banco_valido(final(self)@),
    {
        proof {
            use_type_invariant(&*self);
        }
        match self.procurar(id) {
            Some(_) => {
                self.ativo = id;
                true
            },
            None => false,
        }
    }

    /// Opens a new, empty session after the others, with the id after the
    /// greatest one and the title `Chat <id>`, and makes it active. Where the
    /// ids are used up, nothing changes. Returns whether a session was opened.
    pub fn criar_nova_sessao(&mut self) -> (r: bool)
        ensures
            r == (maior_id(old(self)@.sessoes) < u64::MAX),
            final(self)@ == (if r {
                BancoTexto {
                    sessoes: old(self)@.sessoes.push(sessao_nova((maior_id(old(self)@.sessoes) + 1) as u64)),
                    ativo: (maior_id(old(self)@.sessoes) + 1) as u64,
                }
            } else {
                old(self)@
            }),
            banco_valido(final(self)@),
    {
        proof {
            use_type_invariant(&*self);
        }
        let ghost st = self@.sessoes;
        let mut m: u64 = 0;
        let mut i: usize = 0;
        while i < self.sessoes.len()
            invariant
                st == sessoes_texto(self.sessoes@),
                i <= self.sessoes.len(),
                m == maior_id(st.take(i as int)),
            decreases self.sessoes.len() - i,
        {
            proof {
                assert(st.take(i + 1).drop_last() =~= st.take(i as int));
            }
            if self.sessoes[i].id > m {
                m = self.sessoes[i].id;
            }
            i = i + 1;
        }
        assert(st.take(i as int) =~= st);
        if m == u64::MAX {
            return false;
        }
        let id = m + 1;
        proof {
            lemma_maior_id(st);
        }
        let mut titulo = String::from_str("Chat ");
        push_decimal(&mut titulo, id);
        let mut v = self.retirar();
        v.push(Sessao { id, titulo, mensagens: Vec::new() });
        proof {
            assert(texts(Seq::<ChatMessage>::empty()) =~= Seq::<MessageText>::empty());
            assert(sessoes_texto(v@) =~= st.push(sessao_nova(id)));
            let nv = sessoes_texto(v@);
            assert(nv[st.len() as int].id == id);
            assert forall|x: int, y: int| 0 <= x < nv.len() && 0 <= y < nv.len() && x != y implies nv[x].id
                != nv[y].id by {
                if x < st.len() {
                    assert(nv[x] == st[x]);
                }
                if y < st.len() {
                    assert(nv[y] == st[y]);
                }
            }
        }
        *self = AppDatabase { sessoes: v, ativo: id };
        true
    }

    /// Gives the active session the title `titulo`.
    pub fn renomear_sessao_ativa(&mut self, titulo: String)
        ensures
            ({
                let b = old(self)@;
                let i = posicao(b.sessoes, b.ativo);
                final(self)@ == BancoTexto {
                    sessoes: b.sessoes.update(
                        i,
                        SessaoTexto { id: b.sessoes[i].id, titulo: titulo@, mensagens: b.sessoes[i].mensagens },
                    ),
                    ativo: b.ativo,
                }
            }),
            banco_valido(final(self)@),
    {
        proof {
            use_type_invariant(&*self);
        }
        let ghost b = self@;
        let i = self.indice_ativo();
        let ativo = self.ativo;
        let ghost t = titulo@;
        let mut v = self.retirar();
        let mut s = v.remove(i);
        s.titulo = titulo;
        v.insert(i, s);
        proof {
            let nova = SessaoTexto { id: b.sessoes[i as int].id, titulo: t, mensagens: b.sessoes[i as int].mensagens };
            assert(sessoes_texto(v@) =~= b.sessoes.update(i as int, nova));
            assert(sessoes_texto(v@)[i as int].id == b.ativo);
        }
        *self = AppDatabase { sessoes: v, ativo };
    }

    /// Removes the active session where another one remains, and makes the
    /// first remaining one active. Returns whether a session was removed.
    pub fn deletar_sessao_ativa(&mut self) -> (r: bool)
        ensures
            r == (old(self)@.sessoes.len() > 1),
            final(self)@ == (if r {
                let rest = old(self)@.sessoes.remove(posicao(old(self)@.sessoes, old(self)@.ativo));
                BancoTexto { sessoes: rest, ativo: rest[0].id }
            } else {
                old(self)@
            }),
            banco_valido(final(self)@),
    {
        proof {
            use_type_invariant(&*self);
        }
        if self.sessoes.len() <= 1 {
            return false;
        }
        let ghost b = self@;
        let i = self.indice_ativo();
        let mut v = self.retirar();
        v.remove(i);
        let novo = v[0].id;
        proof {
            let rest = b.sessoes.remove(i as int);
            assert(sessoes_texto(v@) =~= rest);
            assert forall|x: int, y: int| 0 <= x < rest.len() && 0 <= y < rest.len() && x != y implies rest[x].id
                != rest[y].id by {
                let ox = if x < i { x } else { x + 1 };
                let oy = if y < i { y } else { y + 1 };
                assert(rest[x] == b.sessoes[ox]);
                assert(rest[y] == b.sessoes[oy]);
            }
            assert(sessoes_texto(v@)[0].id == novo);
        }
        *self = AppDatabase { sessoes: v, ativo: novo };
        true
    }

    /// Opens an exchange in the active session (see `iniciar_envio`) and
    /// returns the history to send to the model.
    pub fn iniciar_envio_ativo(&mut self, conteudo: &str) -> (historico: Vec<ChatMessage>)
        ensures
            texts(historico@) == mensagens_ativas(old(self)@).push(said("user"@, conteudo@)),
            final(self)@ == com_mensagens_ativas(
                old(self)@,
                exchange_opened(mensagens_ativas(old(self)@), conteudo@),
            ),
            banco_valido(final(self)@),
    {
        proof {
            use_type_invariant(&*self);
        }
        let ghost b = self@;
        let i = self.indice_ativo();
        let ativo = self.ativo;
        let mut v = self.retirar();
        let mut s = v.remove(i);
        let historico = iniciar_envio(&mut s.mensagens, conteudo);
        v.insert(i, s);
        proof {
            let nova = SessaoTexto { id: b.sessoes[i as int].id, titulo: b.sessoes[i as int].titulo, mensagens: s@.mensagens };
            assert(sessoes_texto(v@) =~= b.sessoes.update(i as int, nova));
            assert(sessoes_texto(v@)[i as int].id == b.ativo);
        }
        *self = AppDatabase { sessoes: v, ativo };
        historico
    }

    /// Takes one streamed piece of the reply into the active session (see
    /// `aplicar_pedaco`). Returns whether it was the end marker.
    pub fn aplicar_pedaco_ativo(&mut self, pedaco: &str) -> (terminou: bool)
        ensures
            terminou == (pedaco@ == end_marker()),
            final(self)@ == com_mensagens_ativas(
                old(self)@,
                apply_chunk(mensagens_ativas(old(self)@), pedaco@),
            ),
            banco_valido(final(self)@),
    {
        proof {
            use_type_invariant(&*self);
        }
        let ghost b = self@;
        let i = self.indice_ativo();
        let ativo = self.ativo;
        let mut v = self.retirar();
        let mut s = v.remove(i);
        let terminou = aplicar_pedaco(&mut s.mensagens, pedaco);
        v.insert(i, s);
        proof {
            let nova = SessaoTexto { id: b.sessoes[i as int].id, titulo: b.sessoes[i as int].titulo, mensagens: s@.mensagens };
            assert(sessoes_texto(v@) =~= b.sessoes.update(i as int, nova));
            assert(sessoes_texto(v@)[i as int].id == b.ativo);
        }
        *self = AppDatabase { sessoes: v, ativo };
        terminou
    }
}

} // verus!
