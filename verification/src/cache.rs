use vstd::prelude::*;

use pickledb::PickleDb;

verus! {

#[verifier::external_type_specification]
#[verifier::external_body]
pub struct ExPickleDb(PickleDb);

/// The string-valued entries of the persistent album cache: key text to stored text.
pub uninterp spec fn cache_entries(db: PickleDb) -> Map<Seq<char>, Seq<char>>;

/// Whether the cache handle can take a write without the underlying store
/// panicking when it dumps: its file path renders as UTF-8, or its dump policy
/// never writes. Dumping further assumes a system clock at or after the Unix
/// epoch, which the store unwraps on every dump.
pub uninterp spec fn dump_safe(db: PickleDb) -> bool;

/// Relies on pickledb::PickleDb::get::<String>: yields the string stored under the
/// key, and nothing when the key is absent or its stored bytes are not a string.
#[verifier::external_body]
pub(crate) fn cache_lookup(db: &PickleDb, key: &str) -> (r: Option<String>)
    ensures
        (r is Some) == cache_entries(*db).contains_key(key@),
        r matches Option::Some(v) ==> v@ == cache_entries(*db)[key@],
{
    db.get::<String>(key)
}

/// Relies on pickledb::PickleDb::set::<String>: on success the pair is stored (and
/// dumped to disk per the database's policy); on a dump failure the insertion is
/// rolled back, so the entries are unchanged. `set` touches only the stored maps
/// and the dump clock, never the file path or the policy, so dump-safety is
/// preserved; the `dump_safe` precondition keeps out the handles on which a dump
/// would panic instead of returning its error.
#[verifier::external_body]
pub(crate) fn cache_store(db: &mut PickleDb, key: &str, value: &String) -> (r: bool)
    requires
        dump_safe(*old(db)),
    ensures
        r ==> cache_entries(*final(db)) == cache_entries(*old(db)).insert(key@, value@),
        !r ==> cache_entries(*final(db)) == cache_entries(*old(db)),
        dump_safe(*final(db)) == dump_safe(*old(db)),
{
    db.set(key, value).is_ok()
}

} // verus!
