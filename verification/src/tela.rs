//! Which screen the window shows, and how a message of the conversation is
//! shown.

use vstd::prelude::*;

use crate::text::same_text;

verus! {

/// The screens of the window.
#[derive(PartialEq, Eq, Structural, Clone, Copy, Debug)]
pub enum Tela {
    /// Start-up is still running or has failed.
    Carregamento,
    /// The terms of use wait for acceptance.
    Termos,
    /// The conversation.
    Principal,
}

/// The screen to show: the loading screen until start-up completes, then the
/// terms of use until they are accepted, then the conversation.
pub fn tela_visivel(inicializado: bool, aceitou_termos: bool) -> (t: Tela)
    ensures
        t == (if !inicializado {
            Tela::Carregamento
        } else if !aceitou_termos {
            Tela::Termos
        } else {
            Tela::Principal
        }),
{
    if !inicializado {
        Tela::Carregamento
    } else if !aceitou_termos {
        Tela::Termos
    } else {
        Tela::Principal
    }
}

/// How a message is shown in the conversation.
#[derive(PartialEq, Eq, Structural, Clone, Copy, Debug)]
pub enum Exibicao {
    /// Not shown: the system prompt.
    Oculta,
    /// A line of plain text.
    Usuario,
    /// Rendered as Markdown under the assistant's name.
    Assistente,
}

/// How a message said by `role` is shown: `system` is hidden, `user` is a
/// plain line, anything else is the assistant's reply.
pub fn exibicao(role: &str) -> (e: Exibicao)
    ensures
        e == (if role@ == "system"@ {
            Exibicao::Oculta
        } else if role@ == "user"@ {
            Exibicao::Usuario
        } else {
            Exibicao::Assistente
        }),
{
    if same_text(role, "system") {
        Exibicao::Oculta
    } else if same_text(role, "user") {
        Exibicao::Usuario
    } else {
        Exibicao::Assistente
    }
}

/// The line that shows what the user said.
pub fn linha_usuario(content: &str) -> (s: String)
    ensures
        s@ == "Você: "@ + content@,
{
    let mut s = String::from_str("Você: ");
    s.append(content);
    s
}

} // verus!
