use rustops::chat::ChatMessage;
use rustops::sessoes::{AppDatabase, Sessao};

fn sessao(id: u64, titulo: &str) -> Sessao {
    Sessao { id, titulo: titulo.to_string(), mensagens: Vec::new() }
}

fn ids(db: &AppDatabase) -> Vec<u64> {
    db.sessoes().iter().map(|s| s.id).collect()
}

#[test]
fn new_store_has_one_session() {
    let db = AppDatabase::novo();
    assert_eq!(ids(&db), vec![1]);
    assert_eq!(db.sessao_ativa_id(), 1);
    assert_eq!(db.sessao_ativa().titulo, "Chat 1");
    assert!(db.sessao_ativa().mensagens.is_empty());
}

#[test]
fn create_select_rename_delete() {
    let mut db = AppDatabase::novo();
    assert!(db.criar_nova_sessao());
    assert_eq!(ids(&db), vec![1, 2]);
    assert_eq!(db.sessao_ativa_id(), 2);
    assert_eq!(db.sessao_ativa().titulo, "Chat 2");
    assert!(db.selecionar(1));
    assert_eq!(db.sessao_ativa_id(), 1);
    assert!(!db.selecionar(9));
    assert_eq!(db.sessao_ativa_id(), 1);
    db.renomear_sessao_ativa("Rust".to_string());
    assert_eq!(db.sessoes()[0].titulo, "Rust");
    assert_eq!(db.sessoes()[1].titulo, "Chat 2");
    assert!(db.deletar_sessao_ativa());
    assert_eq!(ids(&db), vec![2]);
    assert_eq!(db.sessao_ativa_id(), 2);
    assert!(!db.deletar_sessao_ativa());
    assert_eq!(ids(&db), vec![2]);
}

#[test]
fn new_id_follows_greatest() {
    let mut db = AppDatabase::restaurar(vec![sessao(7, "a"), sessao(3, "b")], 3).unwrap();
    assert!(db.criar_nova_sessao());
    assert_eq!(ids(&db), vec![7, 3, 8]);
    assert_eq!(db.sessao_ativa().titulo, "Chat 8");
}

#[test]
fn ids_used_up() {
    let mut db = AppDatabase::restaurar(vec![sessao(u64::MAX, "a")], u64::MAX).unwrap();
    assert!(!db.criar_nova_sessao());
    assert_eq!(ids(&db), vec![u64::MAX]);
}

#[test]
fn restore_checks_the_store() {
    assert!(AppDatabase::restaurar(vec![], 1).is_none());
    assert!(AppDatabase::restaurar(vec![sessao(1, "a"), sessao(1, "b")], 1).is_none());
    assert!(AppDatabase::restaurar(vec![sessao(1, "a"), sessao(2, "b")], 5).is_none());
    let db = AppDatabase::restaurar(vec![sessao(1, "a"), sessao(2, "b")], 2).unwrap();
    assert_eq!(db.sessao_ativa().titulo, "b");
}

#[test]
fn exchange_in_active_session_only() {
    let mut db = AppDatabase::novo();
    db.criar_nova_sessao();
    let historico = db.iniciar_envio_ativo("Oi");
    assert_eq!(historico.len(), 1);
    assert_eq!(historico[0].content, "Oi");
    assert!(!db.aplicar_pedaco_ativo("Olá"));
    assert!(db.aplicar_pedaco_ativo("[FIM]"));
    let ativa: &Vec<ChatMessage> = &db.sessao_ativa().mensagens;
    assert_eq!(ativa.len(), 2);
    assert_eq!(ativa[1].role, "assistant");
    assert_eq!(ativa[1].content, "Olá");
    assert!(db.sessoes()[0].mensagens.is_empty());
}
