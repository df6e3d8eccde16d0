use vstd::prelude::*;
use crate::rewrite::{normalize_capture_path, spec_normalize_capture_path};
use crate::strutil::str_eq;

verus! {

/// The registry mapping a normalized static-capture key to its handler.
///
/// The host names the key in a header on each forwarded request; the table
/// resolves it to the registered handler, or to the mandatory default
/// handler on a miss. Handlers are opaque to the table: any value may stand
/// for one.
pub struct StaticPathRouter<H> {
    handlers: Vec<(String, H)>,
    default_handler: H,
    debug_enabled: bool,
}

/// The mapping a sequence of registration entries denotes: later entries
/// shadow earlier ones with the same key.
pub open spec fn spec_table_of<H>(entries: Seq<(String, H)>) -> Map<Seq<char>, H>
    decreases entries.len(),
{
    if entries.len() == 0 {
        Map::empty()
    } else {
        spec_table_of(entries.drop_last()).insert(entries.last().0@, entries.last().1)
    }
}

impl<H> StaticPathRouter<H> {
    /// The mapping from normalized capture path to handler.
    pub closed spec fn table(&self) -> Map<Seq<char>, H> {
        spec_table_of(self.handlers@)
    }

    /// The default handler, consulted on every miss.
    pub closed spec fn spec_default_handler(&self) -> H {
        self.default_handler
    }

    /// Whether debug logging is switched on.
    pub closed spec fn spec_debug_enabled(&self) -> bool {
        self.debug_enabled
    }

    /// A table with no registrations, the given default handler, and debug
    /// logging off.
    pub fn new(default_handler: H) -> (r: Self)
        ensures
            r.table() == Map::<Seq<char>, H>::empty(),
            r.spec_default_handler() == default_handler,
            !r.spec_debug_enabled(),
    {
        StaticPathRouter { handlers: Vec::new(), default_handler, debug_enabled: false }
    }

    /// Registers `handler` under the normalized form of `path`, replacing
    /// any earlier registration for the same key. The last writer wins.
    #[verifier::loop_isolation(false)]
    pub fn register_path_service(&mut self, path: &str, handler: H)
        ensures
            final(self).table() == old(self).table().insert(
                spec_normalize_capture_path(path@),
                handler,
            ),
            final(self).spec_default_handler() == old(self).spec_default_handler(),
            final(self).spec_debug_enabled() == old(self).spec_debug_enabled(),
    {
        let normalized = normalize_capture_path(path);
        self.remove_normalized(normalized.as_str());
        let ghost cleaned = self.handlers@;
        self.handlers.push((normalized, handler));
        proof {
            assert(self.handlers@.drop_last() =~= cleaned);
            assert(spec_table_of(self.handlers@) =~= spec_table_of(cleaned).insert(
                spec_normalize_capture_path(path@),
                handler,
            ));
            assert(spec_table_of(cleaned).insert(
                spec_normalize_capture_path(path@),
                handler,
            ) =~= spec_table_of(old(self).handlers@).insert(
                spec_normalize_capture_path(path@),
                handler,
            ));
        }
    }

    /// Removes the registration under the normalized form of `path`.
    /// Removing an unregistered path changes nothing.
    pub fn remove_path_handler(&mut self, path: &str)
        ensures
            final(self).table() == old(self).table().remove(spec_normalize_capture_path(path@)),
            final(self).spec_default_handler() == old(self).spec_default_handler(),
            final(self).spec_debug_enabled() == old(self).spec_debug_enabled(),
    {
        let normalized = normalize_capture_path(path);
        self.remove_normalized(normalized.as_str());
    }

    /// Drops every entry whose key equals `key`, which must already be in
    /// normalized form.
    #[verifier::loop_isolation(false)]
    fn remove_normalized(&mut self, key: &str)
        ensures
            final(self).table() == old(self).table().remove(key@),
            final(self).spec_default_handler() == old(self).spec_default_handler(),
            final(self).spec_debug_enabled() == old(self).spec_debug_enabled(),
    {
        let ghost orig = self.handlers@;
        let mut remaining: Vec<(String, H)> = Vec::new();
        core::mem::swap(&mut remaining, &mut self.handlers);
        let mut kept: Vec<(String, H)> = Vec::new();
        let ghost mut i: int = 0;
        proof {
            assert(orig.take(0) =~= Seq::<(String, H)>::empty());
            assert(orig.skip(0) =~= orig);
            assert(spec_table_of(kept@) =~= spec_table_of(orig.take(0)).remove(key@));
        }
        while remaining.len() > 0
            invariant
                0 <= i <= orig.len(),
                remaining@ == orig.skip(i),
                spec_table_of(kept@) == spec_table_of(orig.take(i)).remove(key@),
            decreases remaining@.len(),
        {
            proof {
                assert(orig.skip(i)[0] == orig[i]);
                assert(orig.skip(i).remove(0) =~= orig.skip(i + 1));
                assert(orig.take(i + 1).drop_last() =~= orig.take(i));
                assert(orig.take(i + 1).last() == orig[i]);
            }
            let entry = remaining.remove(0);
            let keep = !str_eq(entry.0.as_str(), key);
            if keep {
                let ghost before = kept@;
                kept.push(entry);
                proof {
                    assert(kept@.drop_last() =~= before);
                    assert(spec_table_of(kept@) =~= spec_table_of(orig.take(i + 1)).remove(key@));
                }
            } else {
                proof {
                    assert(spec_table_of(kept@) =~= spec_table_of(orig.take(i + 1)).remove(key@));
                }
            }
            proof {
                i = i + 1;
            }
        }
        proof {
            assert(orig.take(i) =~= orig);
        }
        core::mem::swap(&mut kept, &mut self.handlers);
    }

    /// Whether debug logging is switched on.
    pub fn debug_enabled(&self) -> (r: bool)
        ensures
            r == self.spec_debug_enabled(),
    {
        self.debug_enabled
    }

    /// Switches debug logging on or off.
    pub fn set_debug_print_mode(&mut self, enable: bool)
        ensures
            final(self).table() == old(self).table(),
            final(self).spec_default_handler() == old(self).spec_default_handler(),
            final(self).spec_debug_enabled() == enable,
    {
        self.debug_enabled = enable;
    }

    /// Resolves a forwarded request to its handler: the registration under
    /// the normalized capture key when the host named one and it is
    /// registered, and the default handler otherwise.
    #[verifier::loop_isolation(false)]
    pub fn select_handler(&self, capture_path: Option<&String>) -> (r: &H)
        ensures
            match capture_path {
                Some(p) => {
                    if self.table().contains_key(spec_normalize_capture_path(p@)) {
                        *r == self.table()[spec_normalize_capture_path(p@)]
                    } else {
                        *r == self.spec_default_handler()
                    }
                },
                None => *r == self.spec_default_handler(),
            },
    {
        match capture_path {
            Some(p) => {
                let normalized = normalize_capture_path(p.as_str());
                let ghost key = spec_normalize_capture_path(p@);
                let ghost entries = self.handlers@;
                let mut j: usize = self.handlers.len();
                assert(entries.take(entries.len() as int) =~= entries);
                while j > 0
                    invariant
                        j <= entries.len(),
                        entries == self.handlers@,
                        spec_table_of(entries).contains_key(key) == spec_table_of(
                            entries.take(j as int),
                        ).contains_key(key),
                        spec_table_of(entries).contains_key(key) ==> spec_table_of(
                            entries.take(j as int),
                        )[key] == spec_table_of(entries)[key],
                    decreases j,
                {
                    proof {
                        assert(entries.take(j as int).drop_last() =~= entries.take(j - 1));
                        assert(entries.take(j as int).last() == entries[j - 1]);
                    }
                    if str_eq(self.handlers[j - 1].0.as_str(), normalized.as_str()) {
                        return &self.handlers[j - 1].1;
                    }
                    j = j - 1;
                }
                assert(entries.take(0) =~= Seq::<(String, H)>::empty());
                assert(!spec_table_of(entries).contains_key(key));
                &self.default_handler
            },
            None => &self.default_handler,
        }
    }
}

/// Registering a path and then resolving any capture key that normalizes
/// the same way yields the registered handler: one trailing slash on the
/// lookup key makes no difference.
pub proof fn lemma_register_then_lookup<H>(
    table: Map<Seq<char>, H>,
    path: Seq<char>,
    lookup: Seq<char>,
    handler: H,
)
    requires
        spec_normalize_capture_path(lookup) == spec_normalize_capture_path(path),
    ensures
        table.insert(spec_normalize_capture_path(path), handler).contains_key(
            spec_normalize_capture_path(lookup),
        ),
        table.insert(spec_normalize_capture_path(path), handler)[spec_normalize_capture_path(
            lookup,
        )] == handler,
{
}

/// Normalization strips exactly one trailing slash: a registration path
/// and the same path with one trailing slash added share one key.
pub proof fn lemma_trailing_slash_same_key(p: Seq<char>)
    requires
        p.len() >= 1,
        p[p.len() - 1] != '/',
    ensures
        spec_normalize_capture_path(p.push('/')) == spec_normalize_capture_path(p),
{
    assert(p.push('/').drop_last() =~= p);
}

} // verus!
