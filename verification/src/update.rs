//! The release check: whether the latest published release differs from the
//! running version.

use vstd::prelude::*;

use crate::json::{json_at, json_document, json_text, parse_json, Json};
use crate::text::{opt_text, same_text, strip_leading, strip_leading_char};

verus! {

/// The tag of a release, read from the release document: `tag_name`, where
/// it is a string.
pub open spec fn release_tag(doc: Option<Json>) -> Option<Seq<char>> {
    json_text(json_at(doc, "tag_name"@))
}

/// The tag to announce: `tag` itself, unless without its leading `v`s it is
/// the running version `atual`.
pub open spec fn announced(tag: Seq<char>, atual: Seq<char>) -> Option<Seq<char>> {
    if strip_leading(tag, 'v') != atual {
        Some(tag)
    } else {
        None
    }
}

/// The tag to announce for the release tagged `tag`, while `atual` runs.
pub fn nova_versao(tag: &str, atual: &str) -> (r: Option<String>)
    ensures
        opt_text(r) == announced(tag@, atual@),
{
    let sem_v = strip_leading_char(tag, 'v');
    if !same_text(sem_v.as_str(), atual) {
        Some(String::from_str(tag))
    } else {
        None
    }
}

/// The tag to announce, from the release document already parsed (`None`
/// where the reply was not JSON).
pub fn versao_do_documento(doc: &Option<Json>, atual: &str) -> (r: Option<String>)
    ensures
        opt_text(r) == match release_tag(*doc) {
            Some(tag) => announced(tag, atual@),
            None => None,
        },
{
    match doc {
        Some(v) => match v.field("tag_name") {
            Some(t) => match t.text() {
                Some(tag) => nova_versao(tag.as_str(), atual),
                None => None,
            },
            None => None,
        },
        None => None,
    }
}

/// The tag to announce, from the body of the reply that describes the latest
/// release.
pub fn versao_disponivel(corpo: &str, atual: &str) -> (r: Option<String>)
    ensures
        opt_text(r) == match release_tag(json_document(corpo@)) {
            Some(tag) => announced(tag, atual@),
            None => None,
        },
{
    let doc = parse_json(corpo);
    versao_do_documento(&doc, atual)
}

/// `k` copies of `c`.
pub open spec fn copies(c: char, k: nat) -> Seq<char> {
    Seq::new(k, |i: int| c)
}

/// A release whose tag is the running version, with any number of `v`s in
/// front, is never announced; any other tag is announced as it stands.
pub proof fn lei_versao_atual_nao_anunciada(atual: Seq<char>, k: nat, tag: Seq<char>)
    requires
        atual.len() == 0 || atual[0] != 'v',
    ensures
        announced(copies('v', k) + atual, atual) is None,
        strip_leading(tag, 'v') != atual ==> announced(tag, atual) == Some(tag),
    decreases k,
{
    let t = copies('v', k) + atual;
    if k == 0 {
        assert(t =~= atual);
        if atual.len() > 0 {
            assert(strip_leading(t, 'v') == t);
        }
    } else {
        assert(t.drop_first() =~= copies('v', (k - 1) as nat) + atual);
        lei_versao_atual_nao_anunciada(atual, (k - 1) as nat, tag);
    }
}

} // verus!
