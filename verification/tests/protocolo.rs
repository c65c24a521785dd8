use rustops::chat::{
    aplicar_pedaco, copy_messages, corpo_requisicao_chat, iniciar_envio, interpretar_documento,
    interpretar_linha, pedaco_erro, pode_enviar, pode_enviar_aparado, ChatMessage,
};
use rustops::json::Json;
use serde_json::Value;

fn msg(role: &str, content: &str) -> ChatMessage {
    ChatMessage::new(role, content)
}

fn roles_and_contents(v: &[ChatMessage]) -> Vec<(String, String)> {
    v.iter().map(|m| (m.role.clone(), m.content.clone())).collect()
}

#[test]
fn opening_an_exchange() {
    let mut conversa = vec![msg("system", "prompt")];
    let historico = iniciar_envio(&mut conversa, "Olá");
    assert_eq!(
        roles_and_contents(&historico),
        vec![("system".into(), "prompt".into()), ("user".into(), "Olá".into())]
    );
    assert_eq!(
        roles_and_contents(&conversa),
        vec![
            ("system".into(), "prompt".into()),
            ("user".into(), "Olá".into()),
            ("assistant".into(), "".into())
        ]
    );
}

#[test]
fn streamed_reply_is_accumulated() {
    let mut conversa = Vec::new();
    iniciar_envio(&mut conversa, "Oi");
    assert!(!aplicar_pedaco(&mut conversa, "Olá"));
    assert!(!aplicar_pedaco(&mut conversa, ", mundo"));
    assert!(aplicar_pedaco(&mut conversa, "[FIM]"));
    assert_eq!(conversa[1].content, "Olá, mundo");
    assert_eq!(conversa[0].content, "Oi");
    assert_eq!(conversa.len(), 2);
}

#[test]
fn piece_without_assistant_message_is_dropped() {
    let mut conversa = vec![msg("user", "Oi")];
    assert!(!aplicar_pedaco(&mut conversa, "x"));
    assert_eq!(conversa[0].content, "Oi");
    let mut vazia: Vec<ChatMessage> = Vec::new();
    assert!(!aplicar_pedaco(&mut vazia, "x"));
    assert!(vazia.is_empty());
}

#[test]
fn end_marker_leaves_conversation() {
    let mut conversa = vec![msg("assistant", "pronto")];
    assert!(aplicar_pedaco(&mut conversa, "[FIM]"));
    assert_eq!(conversa[0].content, "pronto");
}

#[test]
fn send_conditions() {
    assert!(pode_enviar("oi", false));
    assert!(!pode_enviar("", false));
    assert!(!pode_enviar("oi", true));
    assert!(pode_enviar("  ", false));
    assert!(!pode_enviar_aparado("  \n", false));
    assert!(pode_enviar_aparado(" oi ", false));
    assert!(!pode_enviar_aparado("oi", true));
}

#[test]
fn copy_keeps_messages() {
    let v = vec![msg("user", "a"), msg("assistant", "b")];
    assert_eq!(roles_and_contents(&copy_messages(&v)), roles_and_contents(&v));
}

#[test]
fn stream_line_with_content() {
    let r = interpretar_linha(r#"{"model":"rustops","message":{"role":"assistant","content":"Olá"},"done":false}"#);
    assert_eq!(r.texto.as_deref(), Some("Olá"));
    assert!(!r.terminou);
}

#[test]
fn stream_line_done() {
    let r = interpretar_linha(r#"{"message":{"role":"assistant","content":""},"done":true}"#);
    assert_eq!(r.texto.as_deref(), Some(""));
    assert!(r.terminou);
}

#[test]
fn stream_line_not_json_or_other_shape() {
    let r = interpretar_linha("not json");
    assert_eq!(r.texto, None);
    assert!(!r.terminou);
    let r = interpretar_linha(r#"{"message":{"content":5},"done":"yes"}"#);
    assert_eq!(r.texto, None);
    assert!(!r.terminou);
    let r = interpretar_linha(r#"[1,2]"#);
    assert_eq!(r.texto, None);
    assert!(!r.terminou);
}

#[test]
fn stream_line_escapes_decoded() {
    let r = interpretar_linha(r#"{"message":{"content":"a\"b\n\u00e7"}}"#);
    assert_eq!(r.texto.as_deref(), Some("a\"b\nç"));
}

#[test]
fn document_read_without_parsing() {
    let doc = Some(Json::Object(vec![
        ("done".to_string(), Json::Bool(true)),
        (
            "message".to_string(),
            Json::Object(vec![("content".to_string(), Json::Str("x".to_string()))]),
        ),
    ]));
    let r = interpretar_documento(&doc);
    assert_eq!(r.texto.as_deref(), Some("x"));
    assert!(r.terminou);
    let r = interpretar_documento(&None);
    assert_eq!(r.texto, None);
    assert!(!r.terminou);
}

#[test]
fn error_piece() {
    assert_eq!(pedaco_erro("timeout"), " [Erro: timeout]");
}

#[test]
fn request_body_layout() {
    let h = vec![msg("user", "Olá \"mundo\"\n")];
    assert_eq!(
        corpo_requisicao_chat(&h),
        r#"{"messages":[{"content":"Olá \"mundo\"\n","role":"user"}],"model":"rustops","stream":true}"#
    );
    let vazio: Vec<ChatMessage> = Vec::new();
    assert_eq!(corpo_requisicao_chat(&vazio), r#"{"messages":[],"model":"rustops","stream":true}"#);
}

#[test]
fn request_body_matches_serde_json() {
    let h = vec![
        msg("system", "s\u{1}\u{1f}\u{7f}\u{8}\u{c}\r"),
        msg("user", "u\tç\\\"/"),
        msg("assistant", "a"),
    ];
    let mut itens = Vec::new();
    for m in &h {
        let mut o = serde_json::Map::new();
        o.insert("role".to_string(), Value::String(m.role.clone()));
        o.insert("content".to_string(), Value::String(m.content.clone()));
        itens.push(Value::Object(o));
    }
    let mut corpo = serde_json::Map::new();
    corpo.insert("model".to_string(), Value::String("rustops".to_string()));
    corpo.insert("messages".to_string(), Value::Array(itens));
    corpo.insert("stream".to_string(), Value::Bool(true));
    assert_eq!(corpo_requisicao_chat(&h), Value::Object(corpo).to_string());
}
