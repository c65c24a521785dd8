//! The failures that the application can report, with their messages.

use vstd::prelude::*;

use crate::text::{decimal, push_decimal};

verus! {

/// A failure of the application. Where the failure comes from elsewhere, it
/// keeps that failure's description.
pub enum RustOpsError {
    OllamaNotRunning,
    CommandExecution(String),
    InsufficientDiskSpace { required: u64 },
    NetworkError(String),
    IoError(String),
    ModelCreationError(String),
    ModelDownloadError(String),
    Generic(String),
}

/// The message that reports the failure.
pub open spec fn error_message(e: RustOpsError) -> Seq<char> {
    match e {
        RustOpsError::OllamaNotRunning => "Ollama não está rodando."@,
        RustOpsError::CommandExecution(s) => "Falha ao executar comando do sistema: "@ + s@,
        RustOpsError::InsufficientDiskSpace { required } => "Espaço em disco insuficiente. Necessário: "@
            + decimal(required as nat) + "GB."@,
        RustOpsError::NetworkError(_) => "Erro de rede ao conectar com o Ollama"@,
        RustOpsError::IoError(s) => "Erro de I/O: "@ + s@,
        RustOpsError::ModelCreationError(s) => "Falha na criação do modelo: "@ + s@,
        RustOpsError::ModelDownloadError(s) => "falha persistente na conexão. Tente rodar 'ollama pull "@
            + s@ + "' no terminal."@,
        RustOpsError::Generic(s) => "Erro inisperado: "@ + s@,
    }
}

fn framed(prefix: &str, middle: &str, suffix: &str) -> (r: String)
    ensures
        r@ == prefix@ + middle@ + suffix@,
{
    let mut r = String::from_str(prefix);
    r.append(middle);
    r.append(suffix);
    r
}

impl RustOpsError {
    /// The message that reports this failure.
    pub fn mensagem(&self) -> (m: String)
        ensures
            m@ == error_message(*self),
    {
        proof {
            reveal_strlit("");
        }
        match self {
            RustOpsError::OllamaNotRunning => String::from_str("Ollama não está rodando."),
            RustOpsError::CommandExecution(s) => framed("Falha ao executar comando do sistema: ", s.as_str(), ""),
            RustOpsError::InsufficientDiskSpace { required } => {
                let mut m = String::from_str("Espaço em disco insuficiente. Necessário: ");
                push_decimal(&mut m, *required);
                m.append("GB.");
                m
            },
            RustOpsError::NetworkError(_) => String::from_str("Erro de rede ao conectar com o Ollama"),
            RustOpsError::IoError(s) => framed("Erro de I/O: ", s.as_str(), ""),
            RustOpsError::ModelCreationError(s) => framed("Falha na criação do modelo: ", s.as_str(), ""),
            RustOpsError::ModelDownloadError(s) => framed(
                "falha persistente na conexão. Tente rodar 'ollama pull ",
                s.as_str(),
                "' no terminal.",
            ),
            RustOpsError::Generic(s) => framed("Erro inisperado: ", s.as_str(), ""),
        }
    }
}

/// Where a failure carries a description from elsewhere, its message ends
/// with that description, or, for a model that could not be pulled, names it
/// in the command it suggests; a network failure is reported with a fixed
/// message.
pub proof fn lei_mensagem_leva_descricao(e: RustOpsError)
    ensures
        match e {
            RustOpsError::CommandExecution(s) | RustOpsError::IoError(s) | RustOpsError::ModelCreationError(s)
            | RustOpsError::Generic(s) => {
                let m = error_message(e);
                m.len() >= s@.len() && m.skip(m.len() - s@.len()) == s@
            },
            RustOpsError::ModelDownloadError(s) => crate::text::seq_contains(error_message(e), s@),
            RustOpsError::InsufficientDiskSpace { required } => crate::text::seq_contains(
                error_message(e),
                decimal(required as nat),
            ),
            _ => true,
        },
{
    let m = error_message(e);
    match e {
        RustOpsError::CommandExecution(s) => {
            assert(m.skip(m.len() - s@.len()) =~= s@);
        },
        RustOpsError::IoError(s) => {
            assert(m.skip(m.len() - s@.len()) =~= s@);
        },
        RustOpsError::ModelCreationError(s) => {
            assert(m.skip(m.len() - s@.len()) =~= s@);
        },
        RustOpsError::Generic(s) => {
            assert(m.skip(m.len() - s@.len()) =~= s@);
        },
        RustOpsError::ModelDownloadError(s) => {
            let p = "falha persistente na conexão. Tente rodar 'ollama pull "@;
            assert(m.subrange(p.len() as int, (p.len() + s@.len()) as int) =~= s@);
            assert(crate::text::occurs_at(m, s@, p.len() as int));
        },
        RustOpsError::InsufficientDiskSpace { required } => {
            let p = "Espaço em disco insuficiente. Necessário: "@;
            let d = decimal(required as nat);
            assert(m.subrange(p.len() as int, (p.len() + d.len()) as int) =~= d);
            assert(crate::text::occurs_at(m, d, p.len() as int));
        },
        _ => {},
    }
}

} // verus!
