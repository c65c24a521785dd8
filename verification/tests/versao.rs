use rustops::errors::RustOpsError;
use rustops::json::Json;
use rustops::tela::{exibicao, linha_usuario, tela_visivel, Exibicao, Tela};
use rustops::update::{nova_versao, versao_disponivel, versao_do_documento};

#[test]
fn same_version_not_announced() {
    assert_eq!(nova_versao("v0.1.4", "0.1.4"), None);
    assert_eq!(nova_versao("0.1.4", "0.1.4"), None);
    assert_eq!(nova_versao("vv0.1.4", "0.1.4"), None);
}

#[test]
fn other_version_announced_with_its_tag() {
    assert_eq!(nova_versao("v0.1.5", "0.1.4"), Some("v0.1.5".to_string()));
    assert_eq!(nova_versao("release-1", "0.1.4"), Some("release-1".to_string()));
}

#[test]
fn release_document() {
    let corpo = r#"{"url":"x","tag_name":"v0.2.0","name":"RustOps 0.2.0","draft":false}"#;
    assert_eq!(versao_disponivel(corpo, "0.1.4"), Some("v0.2.0".to_string()));
    assert_eq!(versao_disponivel(corpo, "0.2.0"), None);
    assert_eq!(versao_disponivel(r#"{"message":"Not Found"}"#, "0.1.4"), None);
    assert_eq!(versao_disponivel(r#"{"tag_name":3}"#, "0.1.4"), None);
    assert_eq!(versao_disponivel("<html>", "0.1.4"), None);
}

#[test]
fn release_document_parsed() {
    let doc = Some(Json::Object(vec![("tag_name".to_string(), Json::Str("v9".to_string()))]));
    assert_eq!(versao_do_documento(&doc, "0.1.4"), Some("v9".to_string()));
    assert_eq!(versao_do_documento(&Some(Json::Null), "0.1.4"), None);
}

#[test]
fn error_messages() {
    assert_eq!(RustOpsError::OllamaNotRunning.mensagem(), "Ollama não está rodando.");
    assert_eq!(
        RustOpsError::CommandExecution("ls".into()).mensagem(),
        "Falha ao executar comando do sistema: ls"
    );
    assert_eq!(
        RustOpsError::InsufficientDiskSpace { required: 5 }.mensagem(),
        "Espaço em disco insuficiente. Necessário: 5GB."
    );
    assert_eq!(
        RustOpsError::NetworkError("refused".into()).mensagem(),
        "Erro de rede ao conectar com o Ollama"
    );
    assert_eq!(RustOpsError::IoError("eof".into()).mensagem(), "Erro de I/O: eof");
    assert_eq!(
        RustOpsError::ModelCreationError("x".into()).mensagem(),
        "Falha na criação do modelo: x"
    );
    assert_eq!(
        RustOpsError::ModelDownloadError("dolphin3:8b".into()).mensagem(),
        "falha persistente na conexão. Tente rodar 'ollama pull dolphin3:8b' no terminal."
    );
    assert_eq!(RustOpsError::Generic("?".into()).mensagem(), "Erro inisperado: ?");
}

#[test]
fn screens_in_order() {
    assert_eq!(tela_visivel(false, true), Tela::Carregamento);
    assert_eq!(tela_visivel(false, false), Tela::Carregamento);
    assert_eq!(tela_visivel(true, false), Tela::Termos);
    assert_eq!(tela_visivel(true, true), Tela::Principal);
}

#[test]
fn message_display() {
    assert_eq!(exibicao("system"), Exibicao::Oculta);
    assert_eq!(exibicao("user"), Exibicao::Usuario);
    assert_eq!(exibicao("assistant"), Exibicao::Assistente);
    assert_eq!(linha_usuario("oi"), "Você: oi");
}
