use vstd::prelude::*;

use crate::text::{has_prefix, strip_prefix_text};

verus! {

/// The public key `mogh_pki::SpkiPublicKey::from_maybe_pem` reads from a pem
/// or base64 der text, as an X25519 key for the mutual handshake, in its
/// base64 spki der text form; `None` when the text holds no such key.
pub uninterp spec fn spki_public_key(pem: Seq<char>) -> Option<Seq<char>>;

/// Reads a public key with `mogh_pki::SpkiPublicKey::from_maybe_pem`
/// (`PkiKind::Mutual`) and gives its text form. The contract claims that the
/// result is `spki_public_key` of the text, `None` for an error.
#[verifier::external_body]
fn read_public_key(pem: &str) -> (r: Option<String>)
    ensures
        match r {
            Some(key) => spki_public_key(pem@) == Some(key@),
            None => spki_public_key(pem@) is None,
        },
{
    mogh_pki::SpkiPublicKey::from_maybe_pem(mogh_pki::PkiKind::Mutual, pem).ok().map(
        |key| key.into_inner(),
    )
}

/// Where a configured periphery public key is found.
#[derive(Debug, PartialEq, Eq)]
pub enum PublicKeySource {
    /// In the file at this path (the entry was `file:<path>`).
    File(String),
    /// In the entry itself.
    Inline(String),
}

/// Where the configured entry `entry` has its key: a file for `file:<path>`,
/// else the entry itself.
pub fn public_key_source(entry: &str) -> (r: PublicKeySource)
    ensures
        match r {
            PublicKeySource::File(path) => has_prefix(entry@, "file:"@) && path@ == entry@.subrange(
                5,
                entry@.len() as int,
            ),
            PublicKeySource::Inline(text) => !has_prefix(entry@, "file:"@) && text@ == entry@,
        },
{
    proof {
        reveal_strlit("file:");
    }
    match strip_prefix_text(entry, "file:") {
        Some(path) => PublicKeySource::File(path),
        None => PublicKeySource::Inline(entry.to_string()),
    }
}

/// The keys read from the key texts, in order, skipping the texts that could
/// not be had (`None`) and those that hold no key.
pub open spec fn read_public_keys(texts: Seq<Option<Seq<char>>>) -> Seq<Seq<char>>
    decreases texts.len(),
{
    if texts.len() == 0 {
        Seq::empty()
    } else {
        let earlier = read_public_keys(texts.drop_last());
        match texts.last() {
            Some(text) => match spki_public_key(text) {
                Some(key) => earlier.push(key),
                None => earlier,
            },
            None => earlier,
        }
    }
}

/// The periphery public keys Core accepts, read from the texts of the
/// configured entries (a `None` stands for a key file that could not be
/// read). Texts that hold no key are skipped.
pub fn periphery_public_keys(texts: Vec<Option<String>>) -> (r: Vec<String>)
    ensures
        r.deep_view() == read_public_keys(texts.deep_view()),
{
    let mut keys: Vec<String> = Vec::new();
    let mut i: usize = 0;
    while i < texts.len()
        invariant
            i <= texts.len(),
            keys.deep_view() == read_public_keys(texts.deep_view().subrange(0, i as int)),
        decreases texts.len() - i,
    {
        let ghost before = keys.deep_view();
        let ghost tv = texts.deep_view().subrange(0, i + 1);
        assert(tv.drop_last() =~= texts.deep_view().subrange(0, i as int));
        assert(tv.last() == texts.deep_view()[i as int]);
        match &texts[i] {
            Some(text) => {
                match read_public_key(text.as_str()) {
                    Some(key) => {
                        let ghost kv = key@;
                        keys.push(key);
                        assert(keys.deep_view() =~= before.push(kv));
                    },
                    None => {},
                }
            },
            None => {},
        }
        i = i + 1;
    }
    assert(texts.deep_view().subrange(0, i as int) =~= texts.deep_view());
    keys
}

/// The text at `i` can be had and holds a key.
pub open spec fn text_holds_key(texts: Seq<Option<Seq<char>>>, i: int) -> bool {
    &&& texts[i] is Some
    &&& spki_public_key(texts[i]->0) is Some
}

/// `key` is the key of some text that can be had.
pub open spec fn key_read_from(texts: Seq<Option<Seq<char>>>, key: Seq<char>) -> bool {
    exists|i: int|
        0 <= i < texts.len() && text_holds_key(texts, i) && spki_public_key(texts[i]->0) == Some(
            key,
        )
}

/// The periphery keys read are exactly the keys of the texts that can be
/// had and hold one: each key read is the key of such a text, each such
/// text gives its key, and no more keys are read than there are texts.
pub proof fn law_read_public_keys(texts: Seq<Option<Seq<char>>>)
    ensures
        read_public_keys(texts).len() <= texts.len(),
        forall|k: int|
            0 <= k < read_public_keys(texts).len() ==> #[trigger] key_read_from(
                texts,
                read_public_keys(texts)[k],
            ),
        forall|i: int|
            0 <= i < texts.len() && #[trigger] text_holds_key(texts, i) ==> read_public_keys(
                texts,
            ).contains(spki_public_key(texts[i]->0)->0),
    decreases texts.len(),
{
    if texts.len() > 0 {
        let earlier = texts.drop_last();
        law_read_public_keys(earlier);
        let r = read_public_keys(texts);
        let e = read_public_keys(earlier);
        assert forall|k: int| 0 <= k < r.len() implies #[trigger] key_read_from(texts, r[k]) by {
            if k < e.len() {
                assert(r[k] == e[k]);
                assert(key_read_from(earlier, e[k]));
                let i = choose|i: int|
                    0 <= i < earlier.len() && text_holds_key(earlier, i) && spki_public_key(
                        earlier[i]->0,
                    ) == Some(e[k]);
                assert(texts[i] == earlier[i]);
                assert(text_holds_key(texts, i));
            } else {
                let i = texts.len() - 1;
                assert(text_holds_key(texts, i));
                assert(spki_public_key(texts[i]->0) == Some(r[k]));
            }
        }
        assert forall|i: int| 0 <= i < texts.len() && #[trigger] text_holds_key(texts, i) implies r.contains(
            spki_public_key(texts[i]->0)->0,
        ) by {
            if i < earlier.len() {
                assert(texts[i] == earlier[i]);
                assert(text_holds_key(earlier, i));
                let k = choose|k: int| 0 <= k < e.len() && e[k] == spki_public_key(earlier[i]->0)->0;
                assert(r[k] == e[k]);
            } else {
                assert(r[r.len() - 1] == spki_public_key(texts[i]->0)->0);
            }
        }
    }
}

} // verus!
