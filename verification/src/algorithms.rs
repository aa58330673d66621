//! Algorithm names: what the protocol engine supports, and the restriction of
//! a requested preference list to it.

use vstd::prelude::*;

verus! {

/// The five families of names that a connection negotiates.
#[derive(Clone, Copy, Debug, PartialEq, Eq, Structural)]
pub enum AlgorithmKind {
    Cipher,
    KeyExchange,
    HostKey,
    Mac,
    Compression,
}

/// Whether the engine knows `name` as a cipher.
pub uninterp spec fn cipher_known(name: Seq<char>) -> bool;

/// Whether the engine knows `name` as a key exchange method.
pub uninterp spec fn kex_known(name: Seq<char>) -> bool;

/// Whether the engine knows `name` as a host key type.
pub uninterp spec fn key_type_known(name: Seq<char>) -> bool;

/// Whether the engine knows `name` as a message authentication code.
pub uninterp spec fn mac_known(name: Seq<char>) -> bool;

/// Whether the engine knows `name` as a compression method.
pub uninterp spec fn compression_known(name: Seq<char>) -> bool;

/// Whether the engine knows `name` in the family `kind`.
pub open spec fn name_known(kind: AlgorithmKind, name: Seq<char>) -> bool {
    match kind {
        AlgorithmKind::Cipher => cipher_known(name),
        AlgorithmKind::KeyExchange => kex_known(name),
        AlgorithmKind::HostKey => key_type_known(name),
        AlgorithmKind::Mac => mac_known(name),
        AlgorithmKind::Compression => compression_known(name),
    }
}

/// Whether `name` is the text of one of `names`.
pub open spec fn listed(names: Seq<String>, name: Seq<char>) -> bool {
    exists|i: int| 0 <= i < names.len() && (#[trigger] names[i])@ == name
}

/// Trusted: `russh::cipher::Name::try_from`. It succeeds exactly on the
/// names of the engine's cipher table.
#[verifier::external_body]
fn is_cipher(name: &str) -> (known: bool)
    ensures
        known == cipher_known(name@),
{
    russh::cipher::Name::try_from(name).is_ok()
}

/// Trusted: `russh::kex::Name::try_from`. It succeeds exactly on the names of
/// the engine's key exchange table.
#[verifier::external_body]
fn is_kex(name: &str) -> (known: bool)
    ensures
        known == kex_known(name@),
{
    russh::kex::Name::try_from(name).is_ok()
}

/// Trusted: `russh_keys::key::Name::try_from`. It succeeds exactly on the
/// names of the engine's list of key types.
#[verifier::external_body]
fn is_key_type(name: &str) -> (known: bool)
    ensures
        known == key_type_known(name@),
{
    russh_keys::key::Name::try_from(name).is_ok()
}

/// Trusted: `russh::mac::Name::try_from`. It succeeds exactly on the names of
/// the engine's MAC table.
#[verifier::external_body]
fn is_mac(name: &str) -> (known: bool)
    ensures
        known == mac_known(name@),
{
    russh::mac::Name::try_from(name).is_ok()
}

/// Trusted: `russh::compression::Name::try_from`. It succeeds exactly on the
/// names of the engine's list of compression methods.
#[verifier::external_body]
fn is_compression(name: &str) -> (known: bool)
    ensures
        known == compression_known(name@),
{
    russh::compression::Name::try_from(name).is_ok()
}

/// Trusted: the names of `russh::cipher::ALL_CIPHERS`, in the table's order.
/// The engine looks a cipher name up among these names and no others.
#[verifier::external_body]
pub fn supported_ciphers() -> (names: Vec<String>)
    ensures
        forall|name: Seq<char>| #[trigger] cipher_known(name) == listed(names@, name),
{
    russh::cipher::ALL_CIPHERS.iter().map(|x| x.as_ref().to_string()).collect()
}

/// Trusted: the names of `russh::kex::ALL_KEX_ALGORITHMS`, in the table's
/// order. The engine looks a key exchange name up among these names and no
/// others.
#[verifier::external_body]
pub fn supported_kex_algorithms() -> (names: Vec<String>)
    ensures
        forall|name: Seq<char>| #[trigger] kex_known(name) == listed(names@, name),
{
    russh::kex::ALL_KEX_ALGORITHMS.iter().map(|x| x.as_ref().to_string()).collect()
}

/// Trusted: the names of `russh::mac::ALL_MAC_ALGORITHMS`, in the table's
/// order. The engine looks a MAC name up among these names and no others.
#[verifier::external_body]
pub fn supported_macs() -> (names: Vec<String>)
    ensures
        forall|name: Seq<char>| #[trigger] mac_known(name) == listed(names@, name),
{
    russh::mac::ALL_MAC_ALGORITHMS.iter().map(|x| x.as_ref().to_string()).collect()
}

/// Trusted: the names of `russh::compression::ALL_COMPRESSION_ALGORITHMS`, in
/// the table's order. The engine looks a compression name up among these
/// names and no others.
#[verifier::external_body]
pub fn supported_compression_algorithms() -> (names: Vec<String>)
    ensures
        forall|name: Seq<char>| #[trigger] compression_known(name) == listed(names@, name),
{
    russh::compression::ALL_COMPRESSION_ALGORITHMS.iter().map(|x| x.as_ref().to_string()).collect()
}

/// Trusted: the names of `russh_keys::key::ALL_KEY_TYPES`, in the table's
/// order. The engine looks a key type name up among these names and no
/// others.
#[verifier::external_body]
pub fn supported_key_types() -> (names: Vec<String>)
    ensures
        forall|name: Seq<char>| #[trigger] key_type_known(name) == listed(names@, name),
{
    russh_keys::key::ALL_KEY_TYPES.iter().map(|x| x.as_ref().to_string()).collect()
}

/// Whether the engine knows `name` in the family `kind`.
pub fn is_supported(kind: AlgorithmKind, name: &str) -> (known: bool)
    ensures
        known == name_known(kind, name@),
{
    match kind {
        AlgorithmKind::Cipher => is_cipher(name),
        AlgorithmKind::KeyExchange => is_kex(name),
        AlgorithmKind::HostKey => is_key_type(name),
        AlgorithmKind::Mac => is_mac(name),
        AlgorithmKind::Compression => is_compression(name),
    }
}

/// The names of the family `kind` that the engine supports.
pub fn supported(kind: AlgorithmKind) -> (names: Vec<String>)
    ensures
        forall|name: Seq<char>| #[trigger] name_known(kind, name) == listed(names@, name),
{
    match kind {
        AlgorithmKind::Cipher => supported_ciphers(),
        AlgorithmKind::KeyExchange => supported_kex_algorithms(),
        AlgorithmKind::HostKey => supported_key_types(),
        AlgorithmKind::Mac => supported_macs(),
        AlgorithmKind::Compression => supported_compression_algorithms(),
    }
}

/// The names of `requested` that the engine knows in the family `kind`, in
/// the order of `requested`.
pub open spec fn supported_among(kind: AlgorithmKind, requested: Seq<String>) -> Seq<String> {
    requested.filter(|name: String| name_known(kind, name@))
}

/// Drops from a preference list every name that the engine does not know.
/// The names that stay keep their order and their repetitions.
pub fn restrict_to_supported(kind: AlgorithmKind, requested: Vec<String>) -> (kept: Vec<String>)
    ensures
        kept@ == supported_among(kind, requested@),
{
    let ghost pred = |name: String| name_known(kind, name@);
    let mut kept: Vec<String> = Vec::new();
    let mut i: usize = 0;
    proof {
        reveal(Seq::filter);
        assert(requested@.take(0).filter(pred) =~= Seq::<String>::empty());
    }
    while i < requested.len()
        invariant
            i <= requested.len(),
            pred == |name: String| name_known(kind, name@),
            kept@ == requested@.take(i as int).filter(pred),
        decreases requested.len() - i,
    {
        let known = is_supported(kind, requested[i].as_str());
        proof {
            assert(requested@.take(i + 1) =~= requested@.take(i as int).push(requested@[i as int]));
            requested@.take(i as int).lemma_filter_push(requested@[i as int], pred);
        }
        if known {
            kept.push(requested[i].clone());
        }
        i += 1;
    }
    proof {
        assert(requested@.take(i as int) =~= requested@);
    }
    kept
}

/// A list that holds the names that the engine knows, and no others, is
/// left whole by the restriction: nothing of the engine's own list is
/// dropped, in whatever order it is asked for.
pub proof fn known_names_survive_restriction(kind: AlgorithmKind, names: Seq<String>)
    requires
        forall|i: int| 0 <= i < names.len() ==> name_known(kind, (#[trigger] names[i])@),
    ensures
        supported_among(kind, names) == names,
    decreases names.len(),
{
    let pred = |name: String| name_known(kind, name@);
    reveal(Seq::filter);
    if names.len() > 0 {
        known_names_survive_restriction(kind, names.drop_last());
        assert(pred(names.last()));
        assert(names.drop_last().push(names.last()) =~= names);
    }
}

} // verus!
