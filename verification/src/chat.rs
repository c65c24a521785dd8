//! A conversation with the model: the messages, how a user message opens an
//! exchange, how the streamed reply grows the last message, and the JSON of
//! the chat protocol spoken with the local model server.

use vstd::prelude::*;

use crate::json::{json_at, json_document, json_field, json_flag, json_string_literal, json_text, parse_json, quote_json, Json};
use crate::text::{occurs_at, opt_text, same_text, seq_contains, trim, trimmed};

verus! {

/// One message of a conversation: who speaks (`user`, `assistant` or
/// `system`) and what was said.
pub struct ChatMessage {
    pub role: String,
    pub content: String,
}

/// A message as text.
pub struct MessageText {
    pub role: Seq<char>,
    pub content: Seq<char>,
}

impl View for ChatMessage {
    type V = MessageText;

    open spec fn view(&self) -> MessageText {
        MessageText { role: self.role@, content: self.content@ }
    }
}

impl Clone for ChatMessage {
    fn clone(&self) -> (r: Self)
        ensures
            r == *self,
    {
        ChatMessage { role: self.role.clone(), content: self.content.clone() }
    }
}

/// The messages as text.
pub open spec fn texts(v: Seq<ChatMessage>) -> Seq<MessageText> {
    v.map_values(|m: ChatMessage| m@)
}

/// A message that `role` says `content`.
pub open spec fn said(role: Seq<char>, content: Seq<char>) -> MessageText {
    MessageText { role, content }
}

/// The text that ends a streamed reply.
pub open spec fn end_marker() -> Seq<char> {
    "[FIM]"@
}

impl ChatMessage {
    /// A message that `role` says `content`.
    pub fn new(role: &str, content: &str) -> (m: ChatMessage)
        ensures
            m@ == said(role@, content@),
    {
        ChatMessage { role: String::from_str(role), content: String::from_str(content) }
    }
}

/// A copy of the messages.
pub fn copy_messages(v: &Vec<ChatMessage>) -> (r: Vec<ChatMessage>)
    ensures
        r@ == v@,
{
    let mut r: Vec<ChatMessage> = Vec::new();
    let mut i: usize = 0;
    while i < v.len()
        invariant
            i <= v.len(),
            r@ == v@.take(i as int),
        decreases v.len() - i,
    {
        r.push(v[i].clone());
        i = i + 1;
        assert(r@ =~= v@.take(i as int));
    }
    assert(v@.take(v.len() as int) =~= v@);
    r
}

/// Whether a message may be sent: some input, and no reply streaming.
pub fn pode_enviar(entrada: &str, processando: bool) -> (b: bool)
    ensures
        b == (entrada@.len() > 0 && !processando),
{
    !entrada.is_empty() && !processando
}

/// Whether a message may be sent where the input is taken without its
/// surrounding white space: some text left, and no reply streaming.
pub fn pode_enviar_aparado(entrada: &str, processando: bool) -> (b: bool)
    ensures
        b == (trim(entrada@).len() > 0 && !processando),
{
    let t = trimmed(entrada);
    t.as_str().unicode_len() > 0 && !processando
}

/// The conversation after the user sent `conteudo`: the user's message, then
/// an empty reply of the assistant to be filled by the stream.
pub open spec fn exchange_opened(msgs: Seq<MessageText>, conteudo: Seq<char>) -> Seq<MessageText> {
    msgs.push(said("user"@, conteudo)).push(said("assistant"@, Seq::empty()))
}

/// Opens an exchange: appends the user's message and an empty reply of the
/// assistant to the conversation, and returns the history to send to the
/// model, which ends with the user's message.
pub fn iniciar_envio(mensagens: &mut Vec<ChatMessage>, conteudo: &str) -> (historico: Vec<ChatMessage>)
    ensures
        texts(historico@) == texts(old(mensagens)@).push(said("user"@, conteudo@)),
        texts(final(mensagens)@) == exchange_opened(texts(old(mensagens)@), conteudo@),
{
    let ghost before = mensagens@;
    mensagens.push(ChatMessage::new("user", conteudo));
    let historico = copy_messages(mensagens);
    mensagens.push(ChatMessage::new("assistant", ""));
    proof {
        assert(texts(historico@) =~= texts(before).push(said("user"@, conteudo@)));
        assert(""@ =~= Seq::<char>::empty()) by {
            reveal_strlit("");
        }
        assert(texts(mensagens@) =~= exchange_opened(texts(before), conteudo@));
    }
    historico
}

/// The conversation after one streamed piece: the end marker leaves it as it
/// is; any other piece is appended to the last message where the assistant
/// speaks it.
pub open spec fn apply_chunk(msgs: Seq<MessageText>, chunk: Seq<char>) -> Seq<MessageText> {
    if chunk == end_marker() {
        msgs
    } else if msgs.len() > 0 && msgs.last().role == "assistant"@ {
        msgs.update(msgs.len() - 1, said(msgs.last().role, msgs.last().content + chunk))
    } else {
        msgs
    }
}

/// Takes one streamed piece of the reply. Returns whether it was the end
/// marker.
pub fn aplicar_pedaco(mensagens: &mut Vec<ChatMessage>, pedaco: &str) -> (terminou: bool)
    ensures
        terminou == (pedaco@ == end_marker()),
        texts(final(mensagens)@) == apply_chunk(texts(old(mensagens)@), pedaco@),
{
    if same_text(pedaco, "[FIM]") {
        return true;
    }
    let ghost before = mensagens@;
    if mensagens.len() > 0 {
        let last = mensagens.len() - 1;
        if same_text(mensagens[last].role.as_str(), "assistant") {
            let mut m = mensagens.pop().unwrap();
            m.content.append(pedaco);
            mensagens.push(m);
            assert(texts(mensagens@) =~= apply_chunk(texts(before), pedaco@));
        }
    }
    false
}

/// What one line of the reply stream carries: a piece of text, and whether
/// the reply is complete.
pub struct LinhaStream {
    pub texto: Option<String>,
    pub terminou: bool,
}

/// The piece of text that a stream line carries at `message.content`.
pub open spec fn stream_piece(doc: Option<Json>) -> Option<Seq<char>> {
    json_text(json_at(json_at(doc, "message"@), "content"@))
}

/// Whether a stream line says `done: true`.
pub open spec fn stream_done(doc: Option<Json>) -> bool {
    json_flag(json_at(doc, "done"@)) == Some(true)
}

/// Reads a stream line already parsed (`None` where it was not JSON): the
/// text at `message.content` where it is a string, and whether `done` is
/// `true`.
pub fn interpretar_documento(doc: &Option<Json>) -> (r: LinhaStream)
    ensures
        opt_text(r.texto) == stream_piece(*doc),
        r.terminou == stream_done(*doc),
{
    match doc {
        None => LinhaStream { texto: None, terminou: false },
        Some(v) => {
            let texto = match v.field("message") {
                Some(m) => match m.field("content") {
                    Some(c) => c.text(),
                    None => None,
                },
                None => None,
            };
            let terminou = match v.field("done") {
                Some(d) => match d.flag() {
                    Some(b) => b,
                    None => false,
                },
                None => false,
            };
            LinhaStream { texto, terminou }
        },
    }
}

/// Reads one line of the reply stream.
pub fn interpretar_linha(linha: &str) -> (r: LinhaStream)
    ensures
        opt_text(r.texto) == stream_piece(json_document(linha@)),
        r.terminou == stream_done(json_document(linha@)),
{
    let doc = parse_json(linha);
    interpretar_documento(&doc)
}

/// The piece that reports a failed request in place of a reply.
pub fn pedaco_erro(descricao: &str) -> (r: String)
    ensures
        r@ == " [Erro: "@ + descricao@ + "]"@,
{
    let mut r = String::from_str(" [Erro: ");
    r.append(descricao);
    r.append("]");
    r
}

/// One message as a JSON object; the keys come sorted, as in a
/// `serde_json::Value`.
pub open spec fn message_json(m: MessageText) -> Seq<char> {
    "{\"content\":"@ + json_string_literal(m.content) + ",\"role\":"@ + json_string_literal(m.role)
        + "}"@
}

/// The messages as the items of a JSON array, comma separated.
pub open spec fn messages_json(ms: Seq<MessageText>) -> Seq<char>
    decreases ms.len(),
{
    if ms.len() == 0 {
        Seq::empty()
    } else if ms.len() == 1 {
        message_json(ms[0])
    } else {
        messages_json(ms.drop_last()) + ","@ + message_json(ms.last())
    }
}

/// The body of a chat request for the `rustops` model, streamed, with the
/// given history.
pub open spec fn chat_request_body(ms: Seq<MessageText>) -> Seq<char> {
    "{\"messages\":["@ + messages_json(ms) + "],\"model\":\"rustops\",\"stream\":true}"@
}

/// Writes the body of a chat request for the `rustops` model, streamed, with
/// the given history.
pub fn corpo_requisicao_chat(historico: &Vec<ChatMessage>) -> (r: String)
    ensures
        r@ == chat_request_body(texts(historico@)),
{
    let ghost ms = texts(historico@);
    let mut r = String::from_str("{\"messages\":[");
    let mut i: usize = 0;
    while i < historico.len()
        invariant
            ms == texts(historico@),
            i <= historico.len(),
            r@ == "{\"messages\":["@ + messages_json(ms.take(i as int)),
        decreases historico.len() - i,
    {
        let ghost before = r@;
        if i > 0 {
            r.append(",");
        }
        r.append("{\"content\":");
        let c = quote_json(historico[i].content.as_str());
        r.append(c.as_str());
        r.append(",\"role\":");
        let q = quote_json(historico[i].role.as_str());
        r.append(q.as_str());
        r.append("}");
        proof {
            let t = ms.take(i + 1);
            assert(t.drop_last() =~= ms.take(i as int));
            assert(t.last() == historico@[i as int]@);
            if i == 0 {
                assert(ms.take(0) =~= Seq::<MessageText>::empty());
                assert(r@ =~= "{\"messages\":["@ + messages_json(t));
            } else {
                assert(r@ =~= "{\"messages\":["@ + messages_json(t));
            }
        }
        i = i + 1;
    }
    assert(ms.take(i as int) =~= ms);
    r.append("],\"model\":\"rustops\",\"stream\":true}");
    r
}


/// The pieces one after the other.
pub open spec fn concat_pieces(cs: Seq<Seq<char>>) -> Seq<char>
    decreases cs.len(),
{
    if cs.len() == 0 {
        Seq::empty()
    } else {
        cs[0] + concat_pieces(cs.drop_first())
    }
}

/// The conversation after the streamed pieces, in order.
pub open spec fn apply_chunks(msgs: Seq<MessageText>, cs: Seq<Seq<char>>) -> Seq<MessageText>
    decreases cs.len(),
{
    if cs.len() == 0 {
        msgs
    } else {
        apply_chunks(apply_chunk(msgs, cs[0]), cs.drop_first())
    }
}

proof fn lemma_chunks_grow_reply(ms: Seq<MessageText>, cs: Seq<Seq<char>>)
    requires
        ms.len() > 0,
        ms.last().role == "assistant"@,
        forall|k: int| 0 <= k < cs.len() ==> cs[k] != end_marker(),
    ensures
        apply_chunks(ms, cs) == ms.update(
            ms.len() - 1,
            said("assistant"@, ms.last().content + concat_pieces(cs)),
        ),
    decreases cs.len(),
{
    if cs.len() == 0 {
        assert(ms.last().content + concat_pieces(cs) =~= ms.last().content);
        assert(ms.update(ms.len() - 1, said("assistant"@, ms.last().content)) =~= ms);
    } else {
        let next = apply_chunk(ms, cs[0]);
        assert(cs[0] != end_marker());
        let rest = cs.drop_first();
        assert forall|k: int| 0 <= k < rest.len() implies rest[k] != end_marker() by {
            assert(rest[k] == cs[k + 1]);
        }
        lemma_chunks_grow_reply(next, rest);
        assert(next.last().content + concat_pieces(rest) =~= ms.last().content + concat_pieces(cs));
        assert(next.update(next.len() - 1, said("assistant"@, next.last().content + concat_pieces(rest)))
            =~= ms.update(ms.len() - 1, said("assistant"@, ms.last().content + concat_pieces(cs))));
    }
}

/// Once an exchange is open, the reply that the stream sends, piece by piece
/// until the end marker, is exactly what the assistant's message then holds:
/// every earlier message, the user's one included, stays as it was, and the
/// end marker changes nothing.
pub proof fn lei_resposta_acumulada(msgs: Seq<MessageText>, conteudo: Seq<char>, pedacos: Seq<Seq<char>>)
    requires
        forall|k: int| 0 <= k < pedacos.len() ==> pedacos[k] != end_marker(),
    ensures
        apply_chunks(exchange_opened(msgs, conteudo), pedacos) == msgs.push(said("user"@, conteudo)).push(
            said("assistant"@, concat_pieces(pedacos)),
        ),
        apply_chunk(apply_chunks(exchange_opened(msgs, conteudo), pedacos), end_marker())
            == apply_chunks(exchange_opened(msgs, conteudo), pedacos),
{
    let ms = exchange_opened(msgs, conteudo);
    lemma_chunks_grow_reply(ms, pedacos);
    assert(Seq::<char>::empty() + concat_pieces(pedacos) =~= concat_pieces(pedacos));
    assert(ms.update(ms.len() - 1, said("assistant"@, ms.last().content + concat_pieces(pedacos)))
        =~= msgs.push(said("user"@, conteudo)).push(said("assistant"@, concat_pieces(pedacos))));
}

/// Whatever text `s` stands as a JSON string at `message.content` of a stream
/// line, white space at either end included, the piece read from the line is
/// exactly `s`: nothing is added, removed or trimmed.
pub proof fn lei_pedaco_exato(doc: Json, mensagem: Json, s: String)
    requires
        json_field(doc, "message"@) == Some(mensagem),
        json_field(mensagem, "content"@) == Some(Json::Str(s)),
    ensures
        stream_piece(Some(doc)) == Some(s@),
{
}

/// A stream line carries a piece only where `message.content` is a JSON
/// string, and the line ends the reply exactly where `done` is the boolean
/// `true`.
pub proof fn lei_linha_sem_texto(doc: Json)
    ensures
        stream_piece(Some(doc)) is Some ==> exists|m: Json, s: String|
            json_field(doc, "message"@) == Some(m) && json_field(m, "content"@) == Some(Json::Str(s))
                && stream_piece(Some(doc)) == Some(s@),
        stream_done(Some(doc)) == (json_field(doc, "done"@) == Some(Json::Bool(true))),
        stream_piece(None) is None && !stream_done(None),
{
    if stream_piece(Some(doc)) is Some {
        let m = json_field(doc, "message"@)->0;
        let c = json_field(m, "content"@)->0;
        assert(c is Str);
        let s = c->Str_0;
        assert(json_field(doc, "message"@) == Some(m) && json_field(m, "content"@) == Some(Json::Str(s)));
    }
}

proof fn lemma_occurs_shift(x: Seq<char>, a: Seq<char>, y: Seq<char>, p: Seq<char>, i: int)
    requires
        occurs_at(a, p, i),
    ensures
        occurs_at(x + a + y, p, x.len() + i),
{
    assert((x + a + y).subrange(x.len() + i, x.len() + i + p.len()) =~= a.subrange(i, i + p.len()));
}

proof fn lemma_messages_json_contains(ms: Seq<MessageText>, k: int)
    requires
        0 <= k < ms.len(),
    ensures
        seq_contains(messages_json(ms), message_json(ms[k])),
    decreases ms.len(),
{
    let p = message_json(ms[k]);
    if ms.len() == 1 {
        assert(occurs_at(messages_json(ms), p, 0)) by {
            assert(messages_json(ms).subrange(0, p.len() as int) =~= p);
        }
    } else if k == ms.len() - 1 {
        let x = messages_json(ms.drop_last()) + ","@;
        assert(occurs_at(p, p, 0)) by {
            assert(p.subrange(0, p.len() as int) =~= p);
        }
        lemma_occurs_shift(x, p, Seq::empty(), p, 0);
        assert(x + p + Seq::<char>::empty() =~= messages_json(ms));
    } else {
        lemma_messages_json_contains(ms.drop_last(), k);
        assert(ms.drop_last()[k] == ms[k]);
        let i = choose|i: int| occurs_at(messages_json(ms.drop_last()), p, i);
        lemma_occurs_shift(Seq::empty(), messages_json(ms.drop_last()), ","@ + message_json(ms.last()), p, i);
        assert(Seq::<char>::empty() + messages_json(ms.drop_last()) + (","@ + message_json(ms.last()))
            =~= messages_json(ms));
    }
}

/// The body of a chat request holds every message of the history, each as
/// its JSON object: no message of the conversation is left out.
pub proof fn lei_corpo_contem_historico(ms: Seq<MessageText>, k: int)
    requires
        0 <= k < ms.len(),
    ensures
        seq_contains(chat_request_body(ms), message_json(ms[k])),
{
    lemma_messages_json_contains(ms, k);
    let p = message_json(ms[k]);
    let i = choose|i: int| occurs_at(messages_json(ms), p, i);
    lemma_occurs_shift(
        "{\"messages\":["@,
        messages_json(ms),
        "],\"model\":\"rustops\",\"stream\":true}"@,
        p,
        i,
    );
}

/// The items of the request's messages array follow the history in order:
/// cut the history anywhere, and the items of the first part come, then a
/// comma, then the items of the rest.
pub proof fn lei_itens_em_ordem(ms: Seq<MessageText>, k: int)
    requires
        0 < k < ms.len(),
    ensures
        messages_json(ms) == messages_json(ms.take(k)) + ","@ + messages_json(ms.skip(k)),
        messages_json(seq![ms[0]]) == message_json(ms[0]),
    decreases ms.len(),
{
    assert(seq![ms[0]].len() == 1);
    let last = ms.last();
    if k == ms.len() - 1 {
        assert(ms.take(k) =~= ms.drop_last());
        assert(ms.skip(k).len() == 1);
        assert(ms.skip(k)[0] == last);
    } else {
        lei_itens_em_ordem(ms.drop_last(), k);
        assert(ms.drop_last().take(k) =~= ms.take(k));
        let r = ms.skip(k);
        assert(r.len() >= 2);
        assert(r.drop_last() =~= ms.drop_last().skip(k));
        assert(r.last() == last);
        assert(messages_json(ms) =~= messages_json(ms.take(k)) + ","@ + messages_json(ms.skip(k)));
    }
}

/// The body of a chat request grows with the history, one message at a time:
/// an empty history gives an empty array, one message gives an array of its
/// object alone, and a message added at the end of a history adds, before the
/// array closes, a comma and that message's object, leaving all that came
/// before as it was.
pub proof fn lei_corpo_acrescenta(ms: Seq<MessageText>, m: MessageText)
    ensures
        chat_request_body(Seq::empty()) == "{\"messages\":["@
            + "],\"model\":\"rustops\",\"stream\":true}"@,
        chat_request_body(seq![m]) == "{\"messages\":["@ + message_json(m)
            + "],\"model\":\"rustops\",\"stream\":true}"@,
        ms.len() > 0 ==> chat_request_body(ms.push(m)) == chat_request_body(ms).take(
            chat_request_body(ms).len() - "],\"model\":\"rustops\",\"stream\":true}"@.len(),
        ) + ","@ + message_json(m) + "],\"model\":\"rustops\",\"stream\":true}"@,
{
    let pre = "{\"messages\":["@;
    let suf = "],\"model\":\"rustops\",\"stream\":true}"@;
    assert(pre + Seq::<char>::empty() + suf =~= pre + suf);
    assert(seq![m].len() == 1);
    if ms.len() > 0 {
        let b = chat_request_body(ms);
        assert(b.take(b.len() - suf.len()) =~= pre + messages_json(ms));
        assert(ms.push(m).drop_last() =~= ms);
        assert(ms.push(m).last() == m);
        assert(chat_request_body(ms.push(m)) =~= pre + messages_json(ms) + ","@ + message_json(m) + suf);
    }
}

} // verus!
