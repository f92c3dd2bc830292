//! The compiled routing structures: per-target level resolution, the
//! immutable dispatch node, and the built-in sinks.

use vstd::prelude::*;
use vstd::string::StrSliceExecFns;
use crate::api::Filter;
use crate::api::Formatter;
use crate::api::Log;
use crate::errors::LogError;
use crate::level::admits;
use crate::level::Level;
use crate::level::LevelFilter;
use crate::record::Record;
use crate::record::RecordView;
use crate::stream::ByteSink;

verus! {

// ---------------------------------------------------------------------------
// Hierarchical level resolution
// ---------------------------------------------------------------------------
//
// A target such as `root::sub::leaf` is matched against override entries by
// first looking for the exact target, then for each prefix obtained by
// stripping the trailing hierarchy segment.  The segment separator is the
// two-character sequence `::`; a single `:` inside a segment name is ordinary
// data and never a boundary.

/// A hierarchy boundary sits at position `i` of `s`: two consecutive colons,
/// both inside the string.
pub open spec fn sep_at(s: Seq<char>, i: int) -> bool {
    &&& 0 <= i
    &&& i + 1 < s.len()
    &&& s[i] == ':'
    &&& s[i + 1] == ':'
}

/// Position of the rightmost hierarchy boundary of `s`, or `-1` when `s` has
/// none.  The prefix `s.take(last_sep(s))` is the parent target of `s`.
pub open spec fn last_sep(s: Seq<char>) -> int
    decreases s.len(),
{
    if s.len() < 2 {
        -1
    } else if s[s.len() - 2] == ':' && s[s.len() - 1] == ':' {
        s.len() - 2
    } else {
        last_sep(s.take(s.len() - 1))
    }
}

/// A boundary position is at most `s.len() - 2`.
pub proof fn lemma_last_sep_bound(s: Seq<char>)
    ensures
        last_sep(s) >= 0 ==> last_sep(s) + 2 <= s.len(),
    decreases s.len(),
{
    if s.len() < 2 {
    } else if s[s.len() - 2] == ':' && s[s.len() - 1] == ':' {
    } else {
        lemma_last_sep_bound(s.take(s.len() - 1));
    }
}

/// `last_sep` names a real boundary, and the rightmost one.
pub proof fn lemma_last_sep_is_rightmost(s: Seq<char>)
    ensures
        last_sep(s) >= 0 ==> sep_at(s, last_sep(s)),
        forall|j: int| j > last_sep(s) ==> !sep_at(s, j),
    decreases s.len(),
{
    if s.len() < 2 {
    } else if s[s.len() - 2] == ':' && s[s.len() - 1] == ':' {
    } else {
        let t = s.take(s.len() - 1);
        lemma_last_sep_is_rightmost(t);
        assert forall|j: int| j > last_sep(s) implies !sep_at(s, j) by {
            if sep_at(s, j) {
                if j == s.len() - 2 {
                    assert(false);
                } else {
                    assert(t[j] == s[j]);
                    assert(t[j + 1] == s[j + 1]);
                    assert(sep_at(t, j));
                }
            }
        }
        if last_sep(s) >= 0 {
            assert(sep_at(t, last_sep(t)));
            assert(s[last_sep(s)] == t[last_sep(s)]);
            assert(s[last_sep(s) + 1] == t[last_sep(s) + 1]);
        }
    }
}

/// If `i` is a boundary and nothing to its right is one, then `i` is the
/// rightmost boundary.
pub proof fn lemma_last_sep_characterize(s: Seq<char>, i: int)
    requires
        sep_at(s, i),
        forall|j: int| j > i ==> !sep_at(s, j),
    ensures
        last_sep(s) == i,
{
    lemma_last_sep_is_rightmost(s);
    if last_sep(s) < i {
        assert(!sep_at(s, i));
    } else if last_sep(s) > i {
        assert(!sep_at(s, last_sep(s)));
    }
}

/// An override table paired with what it maps each target prefix to; the
/// first matching entry wins.
pub open spec fn find_exact_in(
    entries: Seq<(Seq<char>, LevelFilter)>,
    module: Seq<char>,
) -> Option<LevelFilter>
    decreases entries.len(),
{
    if entries.len() == 0 {
        None
    } else if entries[0].0 == module {
        Some(entries[0].1)
    } else {
        find_exact_in(entries.drop_first(), module)
    }
}

/// Hierarchical resolution: the override of the longest prefix of `module`
/// (ending at a hierarchy boundary, or `module` itself) that has one.
pub open spec fn find_module_in(
    entries: Seq<(Seq<char>, LevelFilter)>,
    module: Seq<char>,
) -> Option<LevelFilter>
    decreases module.len(),
    via find_module_in_decreases
{
    if find_exact_in(entries, module) is Some {
        find_exact_in(entries, module)
    } else if last_sep(module) >= 0 {
        find_module_in(entries, module.take(last_sep(module)))
    } else {
        None
    }
}

#[via_fn]
proof fn find_module_in_decreases(entries: Seq<(Seq<char>, LevelFilter)>, module: Seq<char>) {
    lemma_last_sep_bound(module);
}

/// With no entries at all, resolution never finds an override.
pub proof fn lemma_find_module_no_entries(module: Seq<char>)
    ensures
        find_module_in(Seq::<(Seq<char>, LevelFilter)>::empty(), module) is None,
    decreases module.len(),
{
    lemma_last_sep_bound(module);
    if last_sep(module) >= 0 {
        lemma_find_module_no_entries(module.take(last_sep(module)));
    }
}

/// `find_exact_in` misses exactly when no entry has the key.
pub proof fn lemma_find_exact_none_iff(entries: Seq<(Seq<char>, LevelFilter)>, key: Seq<char>)
    ensures
        (find_exact_in(entries, key) is None) <==> (forall|j: int|
            0 <= j < entries.len() ==> (#[trigger] entries[j]).0 != key),
    decreases entries.len(),
{
    if entries.len() > 0 {
        lemma_find_exact_none_iff(entries.drop_first(), key);
        assert forall|j: int| 0 <= j < entries.drop_first().len() implies (#[trigger] entries.drop_first()[j]) == entries[j + 1] by {}
        if find_exact_in(entries, key) is None {
            assert forall|j: int| 0 <= j < entries.len() implies (#[trigger] entries[j]).0 != key by {
                if j > 0 {
                    assert(entries.drop_first()[j - 1] == entries[j]);
                }
            }
        }
    }
}

/// Appending an entry does not disturb existing lookups; a fresh key finds
/// the appended value.
pub proof fn lemma_find_exact_push(
    entries: Seq<(Seq<char>, LevelFilter)>,
    p: (Seq<char>, LevelFilter),
    key: Seq<char>,
)
    ensures
        find_exact_in(entries.push(p), key) == match find_exact_in(entries, key) {
            Some(l) => Some(l),
            None => if p.0 == key {
                Some(p.1)
            } else {
                None
            },
        },
    decreases entries.len(),
{
    if entries.len() == 0 {
        assert(entries.push(p)[0] == p);
        assert(entries.push(p).drop_first() =~= entries);
    } else {
        lemma_find_exact_push(entries.drop_first(), p, key);
        assert(entries.push(p)[0] == entries[0]);
        assert(entries.push(p).drop_first() =~= entries.drop_first().push(p));
    }
}

/// The table with its first `key` entry, if any, removed; every other entry
/// keeps its place.
pub open spec fn remove_first_key(
    entries: Seq<(Seq<char>, LevelFilter)>,
    key: Seq<char>,
) -> Seq<(Seq<char>, LevelFilter)>
    decreases entries.len(),
{
    if entries.len() == 0 {
        entries
    } else if entries[0].0 == key {
        entries.drop_first()
    } else {
        seq![entries[0]] + remove_first_key(entries.drop_first(), key)
    }
}

/// What setting an override does to the table: the first entry with the key
/// leaves, the new pair is appended at the end, and every other entry keeps
/// its relative order.
pub open spec fn spec_replace_entry(
    entries: Seq<(Seq<char>, LevelFilter)>,
    key: Seq<char>,
    level: LevelFilter,
) -> Seq<(Seq<char>, LevelFilter)> {
    remove_first_key(entries, key).push((key, level))
}

/// With no entry keyed `key`, removal changes nothing.
pub proof fn lemma_remove_first_absent(entries: Seq<(Seq<char>, LevelFilter)>, key: Seq<char>)
    requires
        forall|k: int| 0 <= k < entries.len() ==> (#[trigger] entries[k]).0 != key,
    ensures
        remove_first_key(entries, key) == entries,
    decreases entries.len(),
{
    if entries.len() > 0 {
        assert forall|k: int| 0 <= k < entries.drop_first().len() implies (#[trigger] entries.drop_first()[k]).0 != key by {
            assert(entries.drop_first()[k] == entries[k + 1]);
        }
        lemma_remove_first_absent(entries.drop_first(), key);
        assert(seq![entries[0]] + entries.drop_first() =~= entries);
    }
}

/// Removing the first `key` entry is removal at its index.
pub proof fn lemma_remove_first_at(entries: Seq<(Seq<char>, LevelFilter)>, key: Seq<char>, j: int)
    requires
        0 <= j < entries.len(),
        entries[j].0 == key,
        forall|k: int| 0 <= k < j ==> (#[trigger] entries[k]).0 != key,
    ensures
        remove_first_key(entries, key) == entries.remove(j),
    decreases j,
{
    if j == 0 {
        assert(entries.drop_first() =~= entries.remove(0));
    } else {
        assert(entries.drop_first()[j - 1] == entries[j]);
        assert forall|k: int| 0 <= k < j - 1 implies (#[trigger] entries.drop_first()[k]).0 != key by {
            assert(entries.drop_first()[k] == entries[k + 1]);
        }
        lemma_remove_first_at(entries.drop_first(), key, j - 1);
        assert(seq![entries[0]] + entries.drop_first().remove(j - 1) =~= entries.remove(j));
    }
}

/// Removing an entry whose key is not `key` does not disturb `key`'s lookup.
pub proof fn lemma_find_exact_remove_other(
    entries: Seq<(Seq<char>, LevelFilter)>,
    i: int,
    key: Seq<char>,
)
    requires
        0 <= i < entries.len(),
        entries[i].0 != key,
    ensures
        find_exact_in(entries.remove(i), key) == find_exact_in(entries, key),
    decreases entries.len(),
{
    if i == 0 {
        assert(entries.remove(0) =~= entries.drop_first());
    } else {
        assert(entries.remove(i)[0] == entries[0]);
        assert(entries.remove(i).drop_first() =~= entries.drop_first().remove(i - 1));
        lemma_find_exact_remove_other(entries.drop_first(), i - 1, key);
    }
}

/// `k` is `t` itself, or a prefix of `t` that ends at a hierarchy boundary
/// (possibly several segments up).
pub open spec fn is_ancestor_or_self(k: Seq<char>, t: Seq<char>) -> bool
    decreases t.len(),
    via is_ancestor_or_self_decreases
{
    k == t || (last_sep(t) >= 0 && is_ancestor_or_self(k, t.take(last_sep(t))))
}

#[via_fn]
proof fn is_ancestor_or_self_decreases(k: Seq<char>, t: Seq<char>) {
    lemma_last_sep_bound(t);
}

/// The longest prefix of `t` on its ancestor chain that has an override in
/// `entries`, if any.
pub open spec fn deepest_override(
    entries: Seq<(Seq<char>, LevelFilter)>,
    t: Seq<char>,
) -> Option<Seq<char>>
    decreases t.len(),
    via deepest_override_decreases
{
    if find_exact_in(entries, t) is Some {
        Some(t)
    } else if last_sep(t) >= 0 {
        deepest_override(entries, t.take(last_sep(t)))
    } else {
        None
    }
}

#[via_fn]
proof fn deepest_override_decreases(entries: Seq<(Seq<char>, LevelFilter)>, t: Seq<char>) {
    lemma_last_sep_bound(t);
}

/// An ancestor is never longer than its descendant.
pub proof fn lemma_ancestor_len(k: Seq<char>, t: Seq<char>)
    requires
        is_ancestor_or_self(k, t),
    ensures
        k.len() <= t.len(),
    decreases t.len(),
{
    lemma_last_sep_bound(t);
    if k != t {
        lemma_ancestor_len(k, t.take(last_sep(t)));
    }
}

/// Hierarchical resolution returns exactly the override of the deepest
/// ancestor (or the target itself) that has one, and nothing when none has.
pub proof fn lemma_find_module_via_deepest(entries: Seq<(Seq<char>, LevelFilter)>, t: Seq<char>)
    ensures
        find_module_in(entries, t) == match deepest_override(entries, t) {
            Some(k) => find_exact_in(entries, k),
            None => None,
        },
    decreases t.len(),
{
    lemma_last_sep_bound(t);
    if find_exact_in(entries, t) is None && last_sep(t) >= 0 {
        lemma_find_module_via_deepest(entries, t.take(last_sep(t)));
    }
}

/// The deepest override really sits on the ancestor chain and really is set.
pub proof fn lemma_deepest_is_ancestor(entries: Seq<(Seq<char>, LevelFilter)>, t: Seq<char>)
    requires
        deepest_override(entries, t) is Some,
    ensures
        is_ancestor_or_self(deepest_override(entries, t)->Some_0, t),
        find_exact_in(entries, deepest_override(entries, t)->Some_0) is Some,
    decreases t.len(),
{
    lemma_last_sep_bound(t);
    if find_exact_in(entries, t) is None {
        lemma_deepest_is_ancestor(entries, t.take(last_sep(t)));
    }
}

/// The most specific override wins: when any chain member `k` of target `t`
/// carries an override, resolution succeeds, and what it returns is the
/// override of a chain member at least as specific (as long) as `k`.
pub proof fn lemma_most_specific_override_wins(
    entries: Seq<(Seq<char>, LevelFilter)>,
    t: Seq<char>,
    k: Seq<char>,
)
    requires
        is_ancestor_or_self(k, t),
        find_exact_in(entries, k) is Some,
    ensures
        deepest_override(entries, t) is Some,
        deepest_override(entries, t)->Some_0.len() >= k.len(),
        find_module_in(entries, t) == find_exact_in(entries, deepest_override(entries, t)->Some_0),
        find_module_in(entries, t) is Some,
    decreases t.len(),
{
    lemma_last_sep_bound(t);
    lemma_find_module_via_deepest(entries, t);
    lemma_ancestor_len(k, t);
    if find_exact_in(entries, t) is Some {
    } else {
        assert(k != t);
        lemma_most_specific_override_wins(entries, t.take(last_sep(t)), k);
    }
    lemma_deepest_is_ancestor(entries, t);
}

/// Targets that merely share characters with an override key, without being
/// hierarchy descendants of it, are not matched: when no member of the
/// ancestor chain of `t` carries an override, resolution yields nothing.
pub proof fn lemma_unrelated_targets_fall_through(
    entries: Seq<(Seq<char>, LevelFilter)>,
    t: Seq<char>,
)
    requires
        forall|k: Seq<char>| is_ancestor_or_self(k, t) ==> find_exact_in(entries, k) is None,
    ensures
        find_module_in(entries, t) is None,
{
    lemma_find_module_via_deepest(entries, t);
    if deepest_override(entries, t) is Some {
        lemma_deepest_is_ancestor(entries, t);
    }
}

/// A proper ancestor is a strict prefix of its descendant that ends exactly
/// at a hierarchy boundary: the two characters that follow it in the target
/// are `::`.  A prefix that merely shares characters up to some other
/// position is never consulted by resolution.
pub proof fn lemma_ancestor_is_boundary_prefix(k: Seq<char>, t: Seq<char>)
    requires
        is_ancestor_or_self(k, t),
        k != t,
    ensures
        k.len() + 2 <= t.len(),
        k == t.take(k.len() as int),
        sep_at(t, k.len() as int),
    decreases t.len(),
{
    lemma_last_sep_bound(t);
    lemma_last_sep_is_rightmost(t);
    let p = t.take(last_sep(t));
    if k == p {
        assert(k =~= t.take(k.len() as int));
    } else {
        lemma_ancestor_is_boundary_prefix(k, p);
        assert(k =~= t.take(k.len() as int));
        assert(p[k.len() as int] == t[k.len() as int]);
        assert(p[k.len() as int + 1] == t[k.len() as int + 1]);
    }
}

/// Level overrides of one dispatch node.
///
/// The two populated representations answer lookups identically; a compiled
/// node keeps the small one as an insertion-ordered list and switches to the
/// keyed form when the table grows past [`MANY_THRESHOLD`] entries.
pub enum LevelConfiguration {
    /// No overrides: every target falls through to the node default.
    JustDefault,
    /// A small table, scanned linearly.
    Minimal(Vec<(String, LevelFilter)>),
    /// A large table, keyed by target; its keys are expected to be distinct.
    Many(Vec<(String, LevelFilter)>),
}

/// Table size beyond which a compiled node keeps its overrides in the keyed
/// representation.
pub const MANY_THRESHOLD: usize = 15;

/// The mathematical image of an override list.
pub open spec fn entries_of(v: Seq<(String, LevelFilter)>) -> Seq<(Seq<char>, LevelFilter)> {
    v.map_values(|p: (String, LevelFilter)| (p.0@, p.1))
}

/// All keys of an override table are distinct.
pub open spec fn distinct_keys(entries: Seq<(Seq<char>, LevelFilter)>) -> bool {
    forall|i: int, j: int| 0 <= i < j < entries.len() ==> entries[i].0 != entries[j].0
}

impl LevelConfiguration {
    /// The override entries this configuration holds, in order.
    pub open spec fn entries(&self) -> Seq<(Seq<char>, LevelFilter)> {
        match self {
            LevelConfiguration::JustDefault => Seq::empty(),
            LevelConfiguration::Minimal(v) => entries_of(v@),
            LevelConfiguration::Many(v) => entries_of(v@),
        }
    }

    /// The override for exactly this target, if one is set.
    pub fn find_exact(&self, module: &str) -> (r: Option<LevelFilter>)
        ensures
            r == find_exact_in(self.entries(), module@),
    {
        match self {
            LevelConfiguration::JustDefault => None,
            LevelConfiguration::Minimal(v) => find_exact_in_vec(v, module),
            LevelConfiguration::Many(v) => find_exact_in_vec(v, module),
        }
    }

    /// The override governing this target: the exact override if set, else
    /// the override of the nearest ancestor prefix that has one, else `None`.
    pub fn find_module(&self, module: &str) -> (r: Option<LevelFilter>)
        ensures
            r == find_module_in(self.entries(), module@),
    {
        match self {
            LevelConfiguration::JustDefault => {
                proof {
                    lemma_find_module_no_entries(module@);
                }
                None
            },
            _ => {
                if let Some(level) = self.find_exact(module) {
                    return Some(level);
                }
                let mut current: &str = module;
                loop
                    invariant
                        find_exact_in(self.entries(), current@) is None,
                        find_module_in(self.entries(), module@) == find_module_in(
                            self.entries(),
                            current@,
                        ),
                    decreases current@.len(),
                {
                    match last_sep_index(current) {
                        None => {
                            return None;
                        },
                        Some(c) => {
                            current = current.substring_char(0, c);
                            if let Some(level) = self.find_exact(current) {
                                return Some(level);
                            }
                        },
                    }
                }
            },
        }
    }
}

impl From<Vec<(String, LevelFilter)>> for LevelConfiguration {
    /// Pick the representation by table size: none, the insertion-ordered
    /// list, or the keyed form past [`MANY_THRESHOLD`] entries.
    fn from(levels: Vec<(String, LevelFilter)>) -> (r: Self) {
        if levels.len() == 0 {
            LevelConfiguration::JustDefault
        } else if levels.len() > MANY_THRESHOLD {
            LevelConfiguration::Many(levels)
        } else {
            LevelConfiguration::Minimal(levels)
        }
    }
}

impl vstd::std_specs::convert::FromSpecImpl<Vec<(String, LevelFilter)>> for LevelConfiguration {
    open spec fn obeys_from_spec() -> bool {
        true
    }

    open spec fn from_spec(levels: Vec<(String, LevelFilter)>) -> Self {
        if levels@.len() == 0 {
            LevelConfiguration::JustDefault
        } else if levels@.len() > MANY_THRESHOLD {
            LevelConfiguration::Many(levels)
        } else {
            LevelConfiguration::Minimal(levels)
        }
    }
}

/// Whichever representation `From` picks holds exactly the given entries.
pub proof fn lemma_config_from_entries(levels: Vec<(String, LevelFilter)>)
    ensures
        (<LevelConfiguration as vstd::std_specs::convert::FromSpec<
            Vec<(String, LevelFilter)>,
        >>::from_spec(levels)).entries() == entries_of(levels@),
{
    if levels@.len() == 0 {
        assert(entries_of(levels@) =~= Seq::<(Seq<char>, LevelFilter)>::empty());
    }
}

/// First entry of `v` whose key equals `module`, scanning in order.
fn find_exact_in_vec(v: &Vec<(String, LevelFilter)>, module: &str) -> (r: Option<LevelFilter>)
    ensures
        r == find_exact_in(entries_of(v@), module@),
{
    let ghost full = entries_of(v@);
    proof {
        assert(full.skip(0) =~= full);
    }
    let mut i: usize = 0;
    while i < v.len()
        invariant
            i <= v.len(),
            full == entries_of(v@),
            full.len() == v@.len(),
            find_exact_in(full, module@) == find_exact_in(full.skip(i as int), module@),
        decreases v.len() - i,
    {
        let ghost rest = full.skip(i as int);
        proof {
            assert(rest[0] == full[i as int]);
            assert(rest.drop_first() =~= full.skip(i as int + 1));
        }
        if str_eq(v[i].0.as_str(), module) {
            return Some(v[i].1);
        }
        i = i + 1;
    }
    proof {
        assert(full.skip(v@.len() as int) =~= Seq::<(Seq<char>, LevelFilter)>::empty());
    }
    None
}

/// Position of the rightmost `::` boundary of `s`, when it has one.
fn last_sep_index(s: &str) -> (r: Option<usize>)
    ensures
        match r {
            Some(c) => c as int == last_sep(s@) && c + 2 <= s@.len(),
            None => last_sep(s@) < 0,
        },
{
    let n = s.unicode_len();
    if n < 2 {
        return None;
    }
    let mut i: usize = n - 2;
    loop
        invariant
            0 <= i <= n - 2,
            n == s@.len(),
            n >= 2,
            forall|j: int| j > i ==> !sep_at(s@, j),
        decreases i,
    {
        if s.get_char(i) == ':' && s.get_char(i + 1) == ':' {
            proof {
                lemma_last_sep_characterize(s@, i as int);
            }
            return Some(i);
        }
        if i == 0 {
            proof {
                lemma_last_sep_is_rightmost(s@);
            }
            return None;
        }
        i = i - 1;
    }
}

// ---------------------------------------------------------------------------
// The compiled dispatch node and its sinks
// ---------------------------------------------------------------------------

/// A compiled, immutable dispatch node: the routing unit of the tree.
///
/// An event entering the node passes the filter stage, then the level stage,
/// then the optional format stage, and is finally fanned out to every child
/// in attachment order.
pub struct Dispatch {
    /// The children, in the order they were attached.
    pub output: Vec<Output>,
    /// Severity floor for targets without a matching override.
    pub default_level: LevelFilter,
    /// Per-target severity overrides.
    pub levels: LevelConfiguration,
    /// Optional message-rewriting stage.
    pub format: Option<Box<dyn Formatter>>,
    /// Predicates that must all accept an event, checked in attachment order.
    pub filters: Vec<Box<dyn Filter>>,
}

/// One child sink of a dispatch node: the closed set of destinations.
pub enum Output {
    /// Writes each message plus separator to standard output.
    Stdout(Stdout),
    /// Writes each message plus separator to standard error.
    Stderr(Stderr),
    /// Sends each message plus separator over a channel.
    Sender(Sender),
    /// Appends each message plus separator to an arbitrary byte destination.
    Writer(Writer),
    /// A nested dispatch node, applied recursively.
    Dispatch(Dispatch),
    /// A nested dispatch node shared with other parents.
    SharedDispatch(std::sync::Arc<Dispatch>),
    /// An opaque host-provided destination.
    Other(Box<dyn Log>),
}

/// Standard-output sink.
pub struct Stdout {
    /// Terminator appended after each message.
    pub line_sep: String,
}

/// Standard-error sink.
pub struct Stderr {
    /// Terminator appended after each message.
    pub line_sep: String,
}

/// Channel sink: each message plus separator is sent as one string.
pub struct Sender {
    /// The sending half of the channel, behind a lock scoped to one send.
    pub stream: crate::stream::LockedSender,
    /// Terminator appended after each message.
    pub line_sep: String,
}

/// Byte-destination sink.
pub struct Writer {
    /// Where the bytes go.
    pub stream: Box<dyn ByteSink>,
    /// Terminator appended after each message.
    pub line_sep: String,
}

/// Mathematical image of a compiled dispatch node.
pub struct DispatchView {
    pub output: Seq<OutputView>,
    pub default_level: LevelFilter,
    pub levels: Seq<(Seq<char>, LevelFilter)>,
    pub format: Option<Box<dyn Formatter>>,
    pub filters: Seq<Box<dyn Filter>>,
}

/// Mathematical image of one compiled sink.  The byte destination behind a
/// writer and the identity of a host-provided sink are opaque and carry no
/// image of their own.
#[allow(inconsistent_fields)]
pub enum OutputView {
    Stdout { line_sep: Seq<char> },
    Stderr { line_sep: Seq<char> },
    Sender { stream: crate::stream::LockedSender, line_sep: Seq<char> },
    Writer { line_sep: Seq<char> },
    Dispatch(DispatchView),
    SharedDispatch(DispatchView),
    Other,
}

/// The image of a compiled node.
pub open spec fn view_dispatch(d: Dispatch) -> DispatchView
    decreases d via view_dispatch_decreases
{
    DispatchView {
        output: view_outputs(d.output@),
        default_level: d.default_level,
        levels: d.levels.entries(),
        format: d.format,
        filters: d.filters@,
    }
}

/// The images of a sequence of compiled sinks, in order.
pub open spec fn view_outputs(s: Seq<Output>) -> Seq<OutputView>
    decreases s via view_outputs_decreases
{
    if s.len() == 0 {
        Seq::empty()
    } else {
        seq![view_output(s[0])] + view_outputs(s.drop_first())
    }
}

/// The image of one compiled sink.
pub open spec fn view_output(o: Output) -> OutputView
    decreases o via view_output_decreases
{
    match o {
        Output::Stdout(s) => OutputView::Stdout { line_sep: s.line_sep@ },
        Output::Stderr(s) => OutputView::Stderr { line_sep: s.line_sep@ },
        Output::Sender(s) => OutputView::Sender { stream: s.stream, line_sep: s.line_sep@ },
        Output::Writer(w) => OutputView::Writer { line_sep: w.line_sep@ },
        Output::Dispatch(d) => OutputView::Dispatch(view_dispatch(d)),
        Output::SharedDispatch(a) => OutputView::SharedDispatch(view_dispatch(*a)),
        Output::Other(_) => OutputView::Other,
    }
}

#[via_fn]
proof fn view_dispatch_decreases(d: Dispatch) {
}

#[via_fn]
proof fn view_outputs_decreases(s: Seq<Output>) {
    if s.len() > 0 {
        assert(decreases_to!(s => s[0]));
    }
}

#[via_fn]
proof fn view_output_decreases(o: Output) {
}

impl View for Dispatch {
    type V = DispatchView;

    open spec fn view(&self) -> DispatchView {
        view_dispatch(*self)
    }
}

impl View for Output {
    type V = OutputView;

    open spec fn view(&self) -> OutputView {
        view_output(*self)
    }
}

/// How each sink kind is imaged, available as a lemma so the image of a
/// freshly built sink can be named at its construction site.
pub proof fn lemma_view_output_parts(o: Output)
    ensures
        view_output(o) == match o {
            Output::Stdout(s) => OutputView::Stdout { line_sep: s.line_sep@ },
            Output::Stderr(s) => OutputView::Stderr { line_sep: s.line_sep@ },
            Output::Sender(s) => OutputView::Sender { stream: s.stream, line_sep: s.line_sep@ },
            Output::Writer(w) => OutputView::Writer { line_sep: w.line_sep@ },
            Output::Dispatch(d) => OutputView::Dispatch(view_dispatch(d)),
            Output::SharedDispatch(a) => OutputView::SharedDispatch(view_dispatch(*a)),
            Output::Other(_) => OutputView::Other,
        },
{
}

/// The image of a node, spelled out field by field, available as a lemma so
/// it can be named for a freshly built node.
pub proof fn lemma_view_dispatch_parts(d: Dispatch)
    ensures
        view_dispatch(d) == (DispatchView {
            output: view_outputs(d.output@),
            default_level: d.default_level,
            levels: d.levels.entries(),
            format: d.format,
            filters: d.filters@,
        }),
{
}

/// Appending a sink appends its image.
pub proof fn lemma_view_outputs_push(s: Seq<Output>, o: Output)
    ensures
        view_outputs(s.push(o)) == view_outputs(s) + seq![view_output(o)],
    decreases s.len(),
{
    if s.len() == 0 {
        assert(s.push(o)[0] == o);
        assert(s.push(o).drop_first() =~= s);
        assert(view_outputs(s.push(o)) == seq![view_output(o)] + view_outputs(s));
        assert(seq![view_output(o)] + view_outputs(s) =~= view_outputs(s) + seq![view_output(o)]);
    } else {
        lemma_view_outputs_push(s.drop_first(), o);
        assert(s.push(o)[0] == s[0]);
        assert(s.push(o).drop_first() =~= s.drop_first().push(o));
        assert(view_outputs(s.push(o)) == seq![view_output(s[0])] + (view_outputs(s.drop_first())
            + seq![view_output(o)]));
        assert(seq![view_output(s[0])] + (view_outputs(s.drop_first()) + seq![view_output(o)]) =~= (
        seq![view_output(s[0])] + view_outputs(s.drop_first())) + seq![view_output(o)]);
    }
}

/// The severity floor governing `target` at node `d`: its override when one
/// applies, the node default otherwise.
pub open spec fn effective_level(d: Dispatch, target: Seq<char>) -> LevelFilter {
    match find_module_in(d.levels.entries(), target) {
        Some(l) => l,
        None => d.default_level,
    }
}

/// Node-level enablement: the governing severity floor admits the event and
/// every filter lets it through.  This is necessary but not sufficient for
/// visible output; see [`spec_deep_enabled`].
pub open spec fn spec_shallow_enabled(d: Dispatch, level: Level, target: Seq<char>) -> bool {
    &&& admits(effective_level(d, target), level)
    &&& forall|i: int|
        0 <= i < d.filters@.len() ==> #[trigger] d.filters@[i].allows(level, target)
}

/// Whether an event would eventually produce output somewhere below this
/// node: the node itself lets it through and at least one child accepts it.
pub open spec fn spec_deep_enabled(d: Dispatch, level: Level, target: Seq<char>) -> bool
    decreases d via spec_deep_enabled_decreases
{
    &&& spec_shallow_enabled(d, level, target)
    &&& exists|i: int|
        0 <= i < d.output@.len() && spec_output_enabled(#[trigger] d.output@[i], level, target)
}

/// Whether a sink would accept an event: the built-in writers accept
/// everything, nested nodes answer recursively, and a host-provided sink
/// answers for itself.
pub open spec fn spec_output_enabled(o: Output, level: Level, target: Seq<char>) -> bool
    decreases o via spec_output_enabled_decreases
{
    match o {
        Output::Stdout(_) => true,
        Output::Stderr(_) => true,
        Output::Sender(_) => true,
        Output::Writer(_) => true,
        Output::Dispatch(d) => spec_deep_enabled(d, level, target),
        Output::SharedDispatch(a) => spec_deep_enabled(*a, level, target),
        Output::Other(l) => l.enabled_spec(level, target),
    }
}

#[via_fn]
proof fn spec_deep_enabled_decreases(d: Dispatch, level: Level, target: Seq<char>) {
    assert forall|i: int| 0 <= i < d.output@.len() implies (decreases_to!(d =>
    d.output@[i])) by {
        assert(decreases_to!(d.output@ => d.output@[i]));
    }
}

#[via_fn]
proof fn spec_output_enabled_decreases(o: Output, level: Level, target: Seq<char>) {
}

impl Dispatch {
    /// Node-level enablement: filters and levels only, ignoring the children.
    pub fn shallow_enabled(&self, level: Level, target: &str) -> (r: bool)
        ensures
            r == spec_shallow_enabled(*self, level, target@),
    {
        let effective = match self.levels.find_module(target) {
            Some(l) => l,
            None => self.default_level,
        };
        if !effective.admits_level(level) {
            return false;
        }
        let mut i: usize = 0;
        while i < self.filters.len()
            invariant
                i <= self.filters@.len(),
                forall|k: int| 0 <= k < i ==> #[trigger] self.filters@[k].allows(level, target@),
            decreases self.filters@.len() - i,
        {
            if !self.filters[i].check(level, target) {
                return false;
            }
            i = i + 1;
        }
        true
    }

    /// Deep enablement: the node lets the event through and some child would
    /// itself accept it.
    pub fn deep_enabled(&self, level: Level, target: &str) -> (r: bool)
        ensures
            r == spec_deep_enabled(*self, level, target@),
        decreases *self, 1int,
    {
        if !self.shallow_enabled(level, target) {
            return false;
        }
        let mut i: usize = 0;
        while i < self.output.len()
            invariant
                i <= self.output@.len(),
                spec_shallow_enabled(*self, level, target@),
                forall|k: int|
                    0 <= k < i ==> !spec_output_enabled(#[trigger] self.output@[k], level, target@),
            decreases self.output@.len() - i, 0int,
        {
            proof {
                assert(decreases_to!(self.output@ => self.output@[i as int]));
            }
            if self.output[i].enabled_here(level, target) {
                return true;
            }
            i = i + 1;
        }
        false
    }
}

impl Output {
    /// Whether this sink would accept an event with this severity and target.
    pub fn enabled_here(&self, level: Level, target: &str) -> (r: bool)
        ensures
            r == spec_output_enabled(*self, level, target@),
        decreases *self, 2int,
    {
        match self {
            Output::Stdout(_) => true,
            Output::Stderr(_) => true,
            Output::Sender(_) => true,
            Output::Writer(_) => true,
            Output::Dispatch(d) => d.deep_enabled(level, target),
            Output::SharedDispatch(a) => {
                let d: &Dispatch = &*a;
                d.deep_enabled(level, target)
            },
            Output::Other(l) => l.enabled(level, target),
        }
    }
}

/// The message a node's format stage hands downstream for an incoming
/// record: the substituted message when the stage completes its callback,
/// the incoming message when the stage is absent or declines.
pub open spec fn spec_stage_message(format: Option<Box<dyn Formatter>>, record: RecordView) -> Seq<
    char,
> {
    match format {
        Some(f) => match f.formatted(record.message, record) {
            Some(m) => m,
            None => record.message,
        },
        None => record.message,
    }
}

/// A format stage that declines its callback is harmless: the message handed
/// downstream is exactly the incoming one.
pub proof fn lemma_format_fallback(format: Option<Box<dyn Formatter>>, record: RecordView)
    requires
        match format {
            Some(f) => f.formatted(record.message, record) is None,
            None => true,
        },
    ensures
        spec_stage_message(format, record) == record.message,
{
}

impl Dispatch {
    /// Apply the node's format stage: the record with the substituted
    /// message when the stage completed its callback, the record unchanged
    /// otherwise, so a partial formatter degrades gracefully rather than
    /// losing the message.
    pub fn formatted_record(&self, record: &Record) -> (r: Record)
        ensures
            r@.level == record@.level,
            r@.target == record@.target,
            r@.module == record@.module,
            r@.file == record@.file,
            r@.line == record@.line,
            r@.message == spec_stage_message(self.format, record@),
    {
        match &self.format {
            None => record.clone(),
            Some(f) => {
                let out = crate::api::FormatCallback::fresh();
                match f.format(out, record.message.as_str(), record) {
                    Some(fm) => record.with_message(fm.into_message()),
                    None => record.clone(),
                }
            },
        }
    }

    /// Route one event: when the node lets it through, apply the format
    /// stage and forward the result to every child in attachment order.
    /// Sink-level failures never reach the caller; they are redirected to
    /// the diagnostic fallback path.
    pub fn process(&self, record: &Record)
        decreases *self, 2int,
    {
        if self.shallow_enabled(record.level, record.target.as_str()) {
            let routed = self.formatted_record(record);
            self.finish_logging(&routed);
        }
    }

    /// Forward an already-formatted event to every child, first to last.
    pub fn finish_logging(&self, record: &Record)
        decreases *self, 1int,
    {
        let mut i: usize = 0;
        while i < self.output.len()
            invariant
                i <= self.output@.len(),
            decreases self.output@.len() - i,
        {
            proof {
                assert(decreases_to!(self.output@ => self.output@[i as int]));
            }
            self.output[i].log_record(record);
            i = i + 1;
        }
    }

    /// Flush every child, first to last.
    pub fn flush_outputs(&self)
        decreases *self, 1int,
    {
        let mut i: usize = 0;
        while i < self.output.len()
            invariant
                i <= self.output@.len(),
            decreases self.output@.len() - i,
        {
            proof {
                assert(decreases_to!(self.output@ => self.output@[i as int]));
            }
            self.output[i].flush_here();
            i = i + 1;
        }
    }
}

impl Output {
    /// Hand one event to this sink: writers append the message plus
    /// separator and flush, the channel sends it as one string, nested nodes
    /// route recursively, and a host-provided sink handles it itself.
    pub fn log_record(&self, record: &Record)
        decreases *self, 3int,
    {
        match self {
            Output::Stdout(s) => s.write_record(record),
            Output::Stderr(s) => s.write_record(record),
            Output::Sender(s) => s.send_record(record),
            Output::Writer(w) => w.write_record(record),
            Output::Dispatch(d) => d.process(record),
            Output::SharedDispatch(a) => {
                let d: &Dispatch = &*a;
                d.process(record);
            },
            Output::Other(l) => l.log(record),
        }
    }

    /// Flush this sink's buffered state.
    pub fn flush_here(&self)
        decreases *self, 2int,
    {
        match self {
            Output::Stdout(s) => s.flush_stream(),
            Output::Stderr(s) => s.flush_stream(),
            Output::Sender(_) => {},
            Output::Writer(w) => w.flush_stream(),
            Output::Dispatch(d) => d.flush_outputs(),
            Output::SharedDispatch(a) => {
                let d: &Dispatch = &*a;
                d.flush_outputs();
            },
            Output::Other(l) => l.flush(),
        }
    }
}

impl Stdout {
    /// Append the message and separator to standard output; a failed write is
    /// diverted to the fallback path.
    pub fn write_record(&self, record: &Record) {
        let payload = crate::errors::concat_strs(record.message.as_str(), self.line_sep.as_str());
        match crate::stream::stdout_write(payload.as_str()) {
            Ok(_) => {},
            Err(e) => fallback_on_error(record, &LogError::Io(e)),
        }
    }

    /// Flush standard output.
    pub fn flush_stream(&self) {
        match crate::stream::stdout_flush() {
            _ => {},
        }
    }
}

impl Stderr {
    /// Append the message and separator to standard error; a failed write is
    /// diverted to the fallback path.
    pub fn write_record(&self, record: &Record) {
        let payload = crate::errors::concat_strs(record.message.as_str(), self.line_sep.as_str());
        match crate::stream::stderr_write(payload.as_str()) {
            Ok(_) => {},
            Err(e) => fallback_on_error(record, &LogError::Io(e)),
        }
    }

    /// Flush standard error.
    pub fn flush_stream(&self) {
        match crate::stream::stderr_flush() {
            _ => {},
        }
    }
}

impl Sender {
    /// Send the message plus separator as one string; a failed send is
    /// diverted to the fallback path.
    pub fn send_record(&self, record: &Record) {
        let payload = crate::errors::concat_strs(record.message.as_str(), self.line_sep.as_str());
        match self.stream.send(payload) {
            Ok(_) => {},
            Err(e) => fallback_on_error(record, &LogError::Send(e)),
        }
    }
}

impl Writer {
    /// Append the message and separator to the byte destination and flush it;
    /// a failure of either step is diverted to the fallback path.
    pub fn write_record(&self, record: &Record) {
        let payload = crate::errors::concat_strs(record.message.as_str(), self.line_sep.as_str());
        match self.stream.write_str(payload.as_str()) {
            Ok(_) => {
                match self.stream.flush_sink() {
                    Ok(_) => {},
                    Err(e) => fallback_on_error(record, &LogError::Io(e)),
                }
            },
            Err(e) => fallback_on_error(record, &LogError::Io(e)),
        }
    }

    /// Flush the byte destination.
    pub fn flush_stream(&self) {
        match self.stream.flush_sink() {
            _ => {},
        }
    }
}

/// A sink that accepts every event and drops it.
pub struct Null;

/// A sink that stops the process with the message of any event it is handed.
/// Useful as a child of a node filtered down to severities that must never
/// occur.
pub struct Panic;

// ---------------------------------------------------------------------------
// Failure fallback
// ---------------------------------------------------------------------------

/// The text standing in for absent location metadata.
pub open spec fn opt_text(o: Option<Seq<char>>) -> Seq<char> {
    match o {
        Some(s) => s,
        None => Seq::empty(),
    }
}

/// The diagnostic line emitted when a sink fails: it names the attempted
/// message (so the event does not vanish), the event's severity and target,
/// its source-location metadata, and the error.
pub open spec fn spec_fallback_line(record: RecordView, error: LogError) -> Seq<char> {
    "Error performing logging.\n\tattempted to log: "@ + record.message + "\n\tlevel: "@
        + crate::level::level_label(record.level) + "\n\ttarget: "@ + record.target
        + "\n\tmodule: "@ + opt_text(record.module) + "\n\tfile: "@ + opt_text(record.file)
        + "\n\tline: "@ + (match record.line {
        Some(n) => crate::errors::dec_str(n as nat),
        None => Seq::<char>::empty(),
    }) + "\n\tlogging error: "@ + error.text_spec() + "\n"@
}

/// Render the diagnostic line for a failed sink write.
pub fn fallback_line(record: &Record, error: &LogError) -> (r: String)
    ensures
        r@ == spec_fallback_line(record@, *error),
{
    let mut s = "Error performing logging.\n\tattempted to log: ".to_owned();
    s.append(record.message.as_str());
    s.append("\n\tlevel: ");
    s.append(record.level.label());
    s.append("\n\ttarget: ");
    s.append(record.target.as_str());
    s.append("\n\tmodule: ");
    match &record.module {
        Some(m) => s.append(m.as_str()),
        None => {},
    }
    s.append("\n\tfile: ");
    match &record.file {
        Some(f) => s.append(f.as_str()),
        None => {},
    }
    s.append("\n\tline: ");
    match record.line {
        Some(n) => {
            let rendered = crate::errors::u32_dec(n);
            s.append(rendered.as_str());
        },
        None => {},
    }
    s.append("\n\tlogging error: ");
    let text = error.text();
    s.append(text.as_str());
    s.append("\n");
    s
}

/// Redirect a sink-level failure to the secondary diagnostic channel: the
/// attempted payload, the event's target and the error are written to
/// standard error, so a single failing sink never crashes the caller.  When
/// that write fails too, the process stops with both errors: there is
/// deliberately no tertiary fallback.
pub fn fallback_on_error(record: &Record, error: &LogError) {
    let line = fallback_line(record, error);
    match crate::stream::stderr_write(line.as_str()) {
        Ok(_) => {},
        Err(second) => {
            let mut diag =
                "Error performing stderr logging after error occurred during regular logging.\n\tfirst: ".to_owned();
            diag.append(line.as_str());
            diag.append("\n\tstderr error: ");
            diag.append(second.as_str());
            crate::stream::halt(diag.as_str());
        },
    }
}

// ---------------------------------------------------------------------------
// The sink capability, implemented by every built-in sink
// ---------------------------------------------------------------------------

impl Log for Dispatch {
    open spec fn enabled_spec(&self, level: Level, target: Seq<char>) -> bool {
        spec_deep_enabled(*self, level, target)
    }

    fn enabled(&self, level: Level, target: &str) -> bool {
        self.deep_enabled(level, target)
    }

    fn log(&self, record: &Record) {
        self.process(record)
    }

    fn flush(&self) {
        self.flush_outputs()
    }
}

impl Log for Output {
    open spec fn enabled_spec(&self, level: Level, target: Seq<char>) -> bool {
        spec_output_enabled(*self, level, target)
    }

    fn enabled(&self, level: Level, target: &str) -> bool {
        self.enabled_here(level, target)
    }

    fn log(&self, record: &Record) {
        self.log_record(record)
    }

    fn flush(&self) {
        self.flush_here()
    }
}

impl Log for Stdout {
    open spec fn enabled_spec(&self, level: Level, target: Seq<char>) -> bool {
        true
    }

    fn enabled(&self, level: Level, target: &str) -> bool {
        true
    }

    fn log(&self, record: &Record) {
        self.write_record(record)
    }

    fn flush(&self) {
        self.flush_stream()
    }
}

impl Log for Stderr {
    open spec fn enabled_spec(&self, level: Level, target: Seq<char>) -> bool {
        true
    }

    fn enabled(&self, level: Level, target: &str) -> bool {
        true
    }

    fn log(&self, record: &Record) {
        self.write_record(record)
    }

    fn flush(&self) {
        self.flush_stream()
    }
}

impl Log for Sender {
    open spec fn enabled_spec(&self, level: Level, target: Seq<char>) -> bool {
        true
    }

    fn enabled(&self, level: Level, target: &str) -> bool {
        true
    }

    fn log(&self, record: &Record) {
        self.send_record(record)
    }

    fn flush(&self) {
    }
}

impl Log for Writer {
    open spec fn enabled_spec(&self, level: Level, target: Seq<char>) -> bool {
        true
    }

    fn enabled(&self, level: Level, target: &str) -> bool {
        true
    }

    fn log(&self, record: &Record) {
        self.write_record(record)
    }

    fn flush(&self) {
        self.flush_stream()
    }
}

impl Log for Null {
    open spec fn enabled_spec(&self, level: Level, target: Seq<char>) -> bool {
        false
    }

    fn enabled(&self, level: Level, target: &str) -> bool {
        false
    }

    fn log(&self, record: &Record) {
    }

    fn flush(&self) {
    }
}

impl Log for Panic {
    open spec fn enabled_spec(&self, level: Level, target: Seq<char>) -> bool {
        true
    }

    fn enabled(&self, level: Level, target: &str) -> bool {
        true
    }

    fn log(&self, record: &Record) {
        crate::stream::halt(record.message.as_str())
    }

    fn flush(&self) {
    }
}

/// Character-for-character string equality.
pub fn str_eq(a: &str, b: &str) -> (r: bool)
    ensures
        r == (a@ == b@),
{
    let n = a.unicode_len();
    if n != b.unicode_len() {
        return false;
    }
    let mut i: usize = 0;
    while i < n
        invariant
            i <= n,
            n == a@.len(),
            n == b@.len(),
            forall|k: int| 0 <= k < i ==> a@[k] == b@[k],
        decreases n - i,
    {
        if a.get_char(i) != b.get_char(i) {
            return false;
        }
        i = i + 1;
    }
    proof {
        assert(a@ =~= b@);
    }
    true
}

} // verus!
