//! The mutable configuration surface: a builder that accumulates levels,
//! filters, a format stage and children, and compiles into the immutable
//! dispatch tree together with the minimum severity that could ever matter.

use vstd::prelude::*;
use crate::api::Filter;
use crate::api::Formatter;
use crate::api::Log;
use crate::level::filter_rank;
use crate::level::spec_max_verbosity;
use crate::level::spec_min_verbosity;
use crate::level::LevelFilter;
use crate::log_impl::distinct_keys;
use crate::log_impl::entries_of;
use crate::log_impl::find_exact_in;
use crate::log_impl::view_dispatch;
use crate::log_impl::view_output;
use crate::log_impl::view_outputs;
use crate::log_impl::DispatchView;
use crate::log_impl::LevelConfiguration;
use crate::log_impl::OutputView;
use crate::stream::arc_clone;
use crate::stream::ByteSink;

verus! {

/// The builder for a dispatch tree.
///
/// Methods consume and return the builder; nothing is opened or shared until
/// [`Dispatch::into_dispatch`] (or one of its wrappers) compiles the
/// configuration into the immutable runtime tree.
pub struct Dispatch {
    /// Optional message-rewriting stage.
    pub format: Option<Box<dyn Formatter>>,
    /// Configured children, in attachment order.
    pub children: Vec<OutputInner>,
    /// Severity floor for targets without an override.
    pub default_level: LevelFilter,
    /// Per-target overrides, each key held at most once.
    pub levels: Vec<(String, LevelFilter)>,
    /// Predicates that must all accept an event.
    pub filters: Vec<Box<dyn Filter>>,
}

/// One configured child of a builder.
#[allow(inconsistent_fields)]
pub enum OutputInner {
    /// Standard output with the given separator.
    Stdout { line_sep: String },
    /// Standard error with the given separator.
    Stderr { line_sep: String },
    /// A channel destination with the given separator.
    Sender { stream: crate::stream::LockedSender, line_sep: String },
    /// An arbitrary byte destination with the given separator.
    Writer { stream: Box<dyn ByteSink>, line_sep: String },
    /// A nested tree, compiled when it was attached, with its computed
    /// minimum severity.
    Dispatch { tree: crate::log_impl::Dispatch, min_level: LevelFilter },
    /// An already-compiled tree shared with other parents.
    SharedDispatch(SharedDispatch),
    /// An opaque host-provided sink.
    Logger(Box<dyn Log>),
}

/// Configuration for one logger output, accepted by [`Dispatch::chain`].
pub struct Output(pub OutputInner);

/// A compiled tree that several parents can hold simultaneously.
///
/// The tree inside is immutable; cloning the handle shares it rather than
/// duplicating any underlying destination.
pub struct SharedDispatch {
    /// The shared compiled tree.
    pub inner: std::sync::Arc<crate::log_impl::Dispatch>,
    /// The minimum severity at which this tree could ever have an effect.
    pub min_level: LevelFilter,
}

impl Clone for SharedDispatch {
    fn clone(&self) -> (r: Self)
        ensures
            r == *self,
    {
        SharedDispatch { inner: arc_clone(&self.inner), min_level: self.min_level }
    }
}

/// The most verbose severity cap the node itself is configured with: the
/// default floor or any override value, whichever admits the most.
pub open spec fn spec_levels_max(
    levels: Seq<(Seq<char>, LevelFilter)>,
    default: LevelFilter,
) -> LevelFilter
    decreases levels.len(),
{
    if levels.len() == 0 {
        default
    } else {
        spec_max_verbosity(levels[0].1, spec_levels_max(levels.drop_first(), default))
    }
}

/// The most verbose cap at which one configured child could have an effect:
/// a plain destination accepts everything, a nested tree is bounded by its
/// own computed minimum.
pub open spec fn spec_child_potential(o: OutputInner) -> LevelFilter {
    match o {
        OutputInner::Dispatch { tree: _, min_level } => min_level,
        OutputInner::SharedDispatch(s) => s.min_level,
        _ => LevelFilter::Trace,
    }
}

/// The most verbose cap at which any of the children could have an effect;
/// `Off` when there are no children at all.
pub open spec fn spec_children_max(children: Seq<OutputInner>) -> LevelFilter
    decreases children.len(),
{
    if children.len() == 0 {
        LevelFilter::Off
    } else {
        spec_max_verbosity(
            spec_child_potential(children[0]),
            spec_children_max(children.drop_first()),
        )
    }
}

/// The minimum severity at which an event could ever produce output under
/// this configuration: the node's own most verbose cap, further limited by
/// what its children could ever accept.
pub open spec fn spec_builder_min(b: Dispatch) -> LevelFilter {
    spec_min_verbosity(
        spec_levels_max(entries_of(b.levels@), b.default_level),
        spec_children_max(b.children@),
    )
}

/// What one configured child compiles to: plain destinations become the
/// matching sink, nested trees carry their already-compiled form over, and a
/// nested tree whose computed minimum is `Off` compiles to nothing and is
/// dropped.
pub open spec fn spec_compile_one(o: OutputInner) -> Seq<OutputView> {
    match o {
        OutputInner::Stdout { line_sep } => seq![OutputView::Stdout { line_sep: line_sep@ }],
        OutputInner::Stderr { line_sep } => seq![OutputView::Stderr { line_sep: line_sep@ }],
        OutputInner::Sender { stream, line_sep } => seq![
            OutputView::Sender { stream, line_sep: line_sep@ },
        ],
        OutputInner::Writer { line_sep, .. } => seq![OutputView::Writer { line_sep: line_sep@ }],
        OutputInner::Dispatch { tree, min_level } => {
            if filter_rank(min_level) > 0 {
                seq![OutputView::Dispatch(view_dispatch(tree))]
            } else {
                Seq::empty()
            }
        },
        OutputInner::SharedDispatch(s) => {
            if filter_rank(s.min_level) > 0 {
                seq![OutputView::SharedDispatch(view_dispatch(*s.inner))]
            } else {
                Seq::empty()
            }
        },
        OutputInner::Logger(_) => seq![OutputView::Other],
    }
}

/// What a sequence of configured children compiles to, kept in attachment
/// order.
pub open spec fn spec_compile_children(children: Seq<OutputInner>) -> Seq<OutputView>
    decreases children.len(),
{
    if children.len() == 0 {
        Seq::empty()
    } else {
        spec_compile_one(children[0]) + spec_compile_children(children.drop_first())
    }
}

/// The compiled image of a whole builder.
pub open spec fn spec_compile(b: Dispatch) -> DispatchView {
    DispatchView {
        output: spec_compile_children(b.children@),
        default_level: b.default_level,
        levels: entries_of(b.levels@),
        format: b.format,
        filters: b.filters@,
    }
}

impl Dispatch {
    /// A builder that initially does nothing: no children, no overrides, no
    /// filters, no format stage, and the most permissive default floor.
    pub fn new() -> (r: Dispatch)
        ensures
            r.format is None,
            r.children@.len() == 0,
            r.default_level == LevelFilter::Trace,
            r.levels@.len() == 0,
            r.filters@.len() == 0,
    {
        Dispatch {
            format: None,
            children: Vec::new(),
            default_level: LevelFilter::Trace,
            levels: Vec::new(),
            filters: Vec::new(),
        }
    }

    /// Set the message-rewriting stage of this node: the result is this very
    /// configuration with exactly the given formatter installed.
    pub fn format(self, formatter: Box<dyn Formatter>) -> (r: Dispatch)
        ensures
            r == (Dispatch {
                format: Some(formatter),
                children: self.children,
                default_level: self.default_level,
                levels: self.levels,
                filters: self.filters,
            }),
            r.format is Some,
            r.children@ == self.children@,
            r.default_level == self.default_level,
            r.levels@ == self.levels@,
            r.filters@ == self.filters@,
    {
        let mut s = self;
        s.format = Some(formatter);
        s
    }

    /// Attach a child; events passing this node's stages are forwarded to
    /// every child in attachment order.
    pub fn chain(self, logger: Output) -> (r: Dispatch)
        ensures
            r.children@ == self.children@.push(logger.0),
            r.format == self.format,
            r.default_level == self.default_level,
            r.levels@ == self.levels@,
            r.filters@ == self.filters@,
    {
        let Output(inner) = logger;
        let mut s = self;
        s.children.push(inner);
        s
    }

    /// Attach an opaque host-provided sink as a child.
    pub fn chain_logger(self, logger: Box<dyn Log>) -> (r: Dispatch)
        ensures
            r.children@ == self.children@.push(OutputInner::Logger(logger)),
            r.format == self.format,
            r.default_level == self.default_level,
            r.levels@ == self.levels@,
            r.filters@ == self.filters@,
    {
        let mut s = self;
        s.children.push(OutputInner::Logger(logger));
        s
    }

    /// Set the default severity floor, governing every target without a more
    /// specific override.
    pub fn level(self, level: LevelFilter) -> (r: Dispatch)
        ensures
            r.default_level == level,
            r.format == self.format,
            r.children@ == self.children@,
            r.levels@ == self.levels@,
            r.filters@ == self.filters@,
    {
        let mut s = self;
        s.default_level = level;
        s
    }

    /// Set a per-target override.  Setting an override for a target that
    /// already has one replaces it rather than adding a duplicate: the old
    /// entry leaves, the new pair stands last, every other entry keeps its
    /// relative order, and other targets resolve exactly as before.
    pub fn level_for(self, module: &str, level: LevelFilter) -> (r: Dispatch)
        ensures
            r.format == self.format,
            r.children@ == self.children@,
            r.default_level == self.default_level,
            r.filters@ == self.filters@,
            entries_of(r.levels@) == crate::log_impl::spec_replace_entry(
                entries_of(self.levels@),
                module@,
                level,
            ),
            distinct_keys(entries_of(self.levels@)) ==> {
                &&& distinct_keys(entries_of(r.levels@))
                &&& find_exact_in(entries_of(r.levels@), module@) == Some(level)
                &&& forall|k: Seq<char>|
                    k != module@ ==> #[trigger] find_exact_in(entries_of(r.levels@), k)
                        == find_exact_in(entries_of(self.levels@), k)
                &&& r.levels@.len() == if find_exact_in(entries_of(self.levels@), module@) is Some {
                    self.levels@.len()
                } else {
                    self.levels@.len() + 1
                }
            },
    {
        let mut s = self;
        let ghost old_entries = entries_of(s.levels@);
        let mut found: Option<usize> = None;
        let mut i: usize = 0;
        while i < s.levels.len()
            invariant
                i <= s.levels@.len(),
                old_entries == entries_of(s.levels@),
                old_entries.len() == s.levels@.len(),
                match found {
                    Some(j) => j < i && old_entries[j as int].0 == module@ && forall|k: int|
                        0 <= k < j ==> (#[trigger] old_entries[k]).0 != module@,
                    None => forall|k: int| 0 <= k < i ==> (#[trigger] old_entries[k]).0 != module@,
                },
            decreases s.levels@.len() - i,
        {
            if found.is_none() && crate::log_impl::str_eq(s.levels[i].0.as_str(), module) {
                found = Some(i);
            }
            i = i + 1;
        }
        match found {
            Some(j) => {
                s.levels.remove(j);
                proof {
                    assert(entries_of(s.levels@) =~= old_entries.remove(j as int));
                }
            },
            None => {
            },
        }
        let ghost cleaned = entries_of(s.levels@);
        proof {
            match found {
                Some(j) => {
                    crate::log_impl::lemma_remove_first_at(old_entries, module@, j as int);
                },
                None => {
                    crate::log_impl::lemma_remove_first_absent(old_entries, module@);
                },
            }
        }
        s.levels.push((module.to_owned(), level));
        proof {
            assert(entries_of(s.levels@) =~= cleaned.push((module@, level)));
            if distinct_keys(old_entries) {
                lemma_level_for_shape(old_entries, cleaned, module@, level, found);
                lemma_find_exact_from_distinct(old_entries, module@, found);
                lemma_cleaned_lookup(old_entries, cleaned, module@, level, found);
            }
        }
        s
    }

    /// Compile this configuration into the immutable runtime tree, together
    /// with the minimum severity at which an event could ever have an
    /// effect: nested children that can never accept anything are dropped,
    /// the remaining children keep their attachment order, and the override
    /// table, default floor, format stage and filters carry over unchanged.
    pub fn into_dispatch(self) -> (r: (LevelFilter, crate::log_impl::Dispatch))
        ensures
            r.0 == spec_builder_min(self),
            r.1@ == spec_compile(self),
    {
        let ghost b = self;
        let Dispatch { format, mut children, default_level, levels, filters } = self;
        let ghost full = b.children@;
        let ghost mut gi: int = 0;

        let mut output: Vec<crate::log_impl::Output> = Vec::new();
        let mut max_child_level = LevelFilter::Off;
        proof {
            lemma_levels_max_lower(entries_of(b.levels@), b.default_level);
            assert(full.skip(0) =~= full);
            assert(view_outputs(output@) + spec_compile_children(children@)
                =~= spec_compile_children(full));
        }
        while children.len() > 0
            invariant
                children@ =~= full.skip(gi),
                0 <= gi <= full.len(),
                full == b.children@,
                spec_children_max(full) == spec_max_verbosity(
                    max_child_level,
                    spec_children_max(children@),
                ),
                spec_compile_children(full) == view_outputs(output@) + spec_compile_children(
                    children@,
                ),
            decreases children@.len(),
        {
            let ghost before = children@;
            let child = children.remove(0);
            proof {
                assert(before[0] == full[gi]);
                assert(children@ =~= before.drop_first());
                assert(children@ =~= full.skip(gi + 1));
                assert(spec_children_max(before) == spec_max_verbosity(
                    spec_child_potential(child),
                    spec_children_max(children@),
                ));
                assert(spec_compile_children(before) == spec_compile_one(child)
                    + spec_compile_children(children@));
            }
            let ghost out_before = output@;
            let ghost gchild = child;
            match child {
                OutputInner::Stdout { line_sep } => {
                    max_child_level = max_child_level.max_verbosity(LevelFilter::Trace);
                    let sink = crate::log_impl::Output::Stdout(
                        crate::log_impl::Stdout { line_sep },
                    );
                    let ghost gsink = sink;
                    output.push(sink);
                    proof {
                        crate::log_impl::lemma_view_outputs_push(out_before, gsink);
                        assert(spec_compile_one(gchild) =~= seq![view_output(gsink)]);
                    }
                },
                OutputInner::Stderr { line_sep } => {
                    max_child_level = max_child_level.max_verbosity(LevelFilter::Trace);
                    let sink = crate::log_impl::Output::Stderr(
                        crate::log_impl::Stderr { line_sep },
                    );
                    let ghost gsink = sink;
                    output.push(sink);
                    proof {
                        crate::log_impl::lemma_view_outputs_push(out_before, gsink);
                        assert(spec_compile_one(gchild) =~= seq![view_output(gsink)]);
                    }
                },
                OutputInner::Sender { stream, line_sep } => {
                    max_child_level = max_child_level.max_verbosity(LevelFilter::Trace);
                    let sink = crate::log_impl::Output::Sender(
                        crate::log_impl::Sender { stream, line_sep },
                    );
                    let ghost gsink = sink;
                    output.push(sink);
                    proof {
                        crate::log_impl::lemma_view_outputs_push(out_before, gsink);
                        assert(spec_compile_one(gchild) =~= seq![view_output(gsink)]);
                    }
                },
                OutputInner::Writer { stream, line_sep } => {
                    max_child_level = max_child_level.max_verbosity(LevelFilter::Trace);
                    let sink = crate::log_impl::Output::Writer(
                        crate::log_impl::Writer { stream, line_sep },
                    );
                    let ghost gsink = sink;
                    output.push(sink);
                    proof {
                        crate::log_impl::lemma_view_outputs_push(out_before, gsink);
                        crate::log_impl::lemma_view_output_parts(gsink);
                        assert(spec_compile_one(gchild) =~= seq![view_output(gsink)]);
                    }
                },
                OutputInner::Dispatch { tree, min_level } => {
                    max_child_level = max_child_level.max_verbosity(min_level);
                    if min_level.rank() > 0 {
                        let sink = crate::log_impl::Output::Dispatch(tree);
                        let ghost gsink = sink;
                        output.push(sink);
                        proof {
                            crate::log_impl::lemma_view_outputs_push(out_before, gsink);
                            crate::log_impl::lemma_view_output_parts(gsink);
                            assert(spec_compile_one(gchild) =~= seq![view_output(gsink)]);
                        }
                    } else {
                        proof {
                            assert(spec_compile_one(gchild) =~= Seq::<OutputView>::empty());
                        }
                    }
                },
                OutputInner::SharedDispatch(shared) => {
                    let SharedDispatch { inner, min_level } = shared;
                    max_child_level = max_child_level.max_verbosity(min_level);
                    if min_level.rank() > 0 {
                        let sink = crate::log_impl::Output::SharedDispatch(inner);
                        let ghost gsink = sink;
                        output.push(sink);
                        proof {
                            crate::log_impl::lemma_view_outputs_push(out_before, gsink);
                            crate::log_impl::lemma_view_output_parts(gsink);
                            assert(spec_compile_one(gchild) =~= seq![view_output(gsink)]);
                        }
                    } else {
                        proof {
                            assert(spec_compile_one(gchild) =~= Seq::<OutputView>::empty());
                        }
                    }
                },
                OutputInner::Logger(l) => {
                    max_child_level = max_child_level.max_verbosity(LevelFilter::Trace);
                    let sink = crate::log_impl::Output::Other(l);
                    let ghost gsink = sink;
                    output.push(sink);
                    proof {
                        crate::log_impl::lemma_view_outputs_push(out_before, gsink);
                        crate::log_impl::lemma_view_output_parts(gsink);
                        assert(spec_compile_one(gchild) =~= seq![view_output(gsink)]);
                    }
                },
            }
            proof {
                gi = gi + 1;
                assert(spec_compile_children(full) =~= view_outputs(output@)
                    + spec_compile_children(children@));
            }
        }
        proof {
            assert(children@ =~= Seq::<OutputInner>::empty());
            assert(spec_compile_children(full) =~= view_outputs(output@));
            assert(spec_children_max(full) == max_child_level);
        }

        let ghost lv = levels;
        let mut min_level = default_level;
        let mut i: usize = 0;
        let ghost lev_entries = entries_of(levels@);
        proof {
            assert(lev_entries.skip(0) =~= lev_entries);
        }
        while i < levels.len()
            invariant
                i <= levels@.len(),
                levels == lv,
                lev_entries == entries_of(levels@),
                lev_entries.len() == levels@.len(),
                filter_rank(min_level) >= filter_rank(default_level),
                spec_levels_max(lev_entries, default_level) == spec_max_verbosity(
                    min_level,
                    spec_levels_max(lev_entries.skip(i as int), default_level),
                ),
            decreases levels@.len() - i,
        {
            let ghost rest = lev_entries.skip(i as int);
            proof {
                assert(rest[0] == lev_entries[i as int]);
                assert(rest.drop_first() =~= lev_entries.skip(i as int + 1));
            }
            min_level = min_level.max_verbosity(levels[i].1);
            i = i + 1;
        }
        proof {
            assert(lev_entries.skip(levels@.len() as int) =~= Seq::<(Seq<char>, LevelFilter)>::empty());
            assert(min_level == spec_levels_max(lev_entries, default_level));
        }
        let real_min = min_level.min_verbosity(max_child_level);

        let config = LevelConfiguration::from(levels);
        proof {
            crate::log_impl::lemma_config_from_entries(lv);
        }
        let compiled = crate::log_impl::Dispatch {
            output,
            default_level,
            levels: config,
            format,
            filters,
        };
        proof {
            crate::log_impl::lemma_view_dispatch_parts(compiled);
        }
        (real_min, compiled)
    }

    /// Compile and wrap in a shared handle, so several parents can chain the
    /// same tree without duplicating its destinations.
    pub fn into_shared(self) -> (r: SharedDispatch)
        ensures
            r.min_level == spec_builder_min(self),
            (*r.inner)@ == spec_compile(self),
    {
        let (min_level, dispatch) = self.into_dispatch();
        SharedDispatch { inner: std::sync::Arc::new(dispatch), min_level }
    }

    /// Compile into an opaque sink together with the computed minimum
    /// severity: the caller can set a global gate at that severity without
    /// running any filter per event.  A tree whose minimum is `Off` becomes
    /// the null sink, which enables nothing.
    pub fn into_log(self) -> (r: (LevelFilter, Box<dyn Log>))
        ensures
            r.0 == spec_builder_min(self),
            filter_rank(r.0) == 0 ==> forall|l: crate::level::Level, t: Seq<char>|
                !(#[trigger] r.1.enabled_spec(l, t)),
    {
        let (level, logger) = self.into_dispatch();
        if level.rank() == 0 {
            (level, Box::new(crate::log_impl::Null))
        } else {
            (level, Box::new(logger))
        }
    }

    /// Add a filter; events must pass every filter, in attachment order.
    pub fn filter(self, filter: Box<dyn Filter>) -> (r: Dispatch)
        ensures
            r.filters@ == self.filters@.push(filter),
            r.format == self.format,
            r.children@ == self.children@,
            r.default_level == self.default_level,
            r.levels@ == self.levels@,
    {
        let mut s = self;
        s.filters.push(filter);
        s
    }
}

/// After removing the first `module` entry (when there was one), no `module`
/// key is left among distinct keys; pushing the new entry therefore installs
/// exactly one.
proof fn lemma_level_for_shape(
    old_entries: Seq<(Seq<char>, LevelFilter)>,
    cleaned: Seq<(Seq<char>, LevelFilter)>,
    module: Seq<char>,
    level: LevelFilter,
    found: Option<usize>,
)
    requires
        distinct_keys(old_entries),
        match found {
            Some(j) => (j as int) < old_entries.len() && old_entries[j as int].0 == module
                && cleaned == old_entries.remove(j as int),
            None => cleaned == old_entries && forall|k: int|
                0 <= k < old_entries.len() ==> (#[trigger] old_entries[k]).0 != module,
        },
    ensures
        distinct_keys(cleaned.push((module, level))),
        find_exact_in(cleaned.push((module, level)), module) == Some(level),
{
    assert forall|k: int| 0 <= k < cleaned.len() implies (#[trigger] cleaned[k]).0 != module by {
        match found {
            Some(j) => {
                if k < j {
                    assert(cleaned[k] == old_entries[k]);
                } else {
                    assert(cleaned[k] == old_entries[k + 1]);
                }
            },
            None => {},
        }
    }
    lemma_find_exact_none_from_no_key(cleaned, module);
    crate::log_impl::lemma_find_exact_push(cleaned, (module, level), module);
    let pushed = cleaned.push((module, level));
    assert forall|a: int, b: int| 0 <= a < b < pushed.len() implies pushed[a].0 != pushed[b].0 by {
        if b < cleaned.len() {
            match found {
                Some(j) => {
                    let ja = if a < j {
                        a
                    } else {
                        a + 1
                    };
                    let jb = if b < j {
                        b
                    } else {
                        b + 1
                    };
                    assert(cleaned[a] == old_entries[ja]);
                    assert(cleaned[b] == old_entries[jb]);
                },
                None => {},
            }
        } else {
            assert(pushed[b].0 == module);
            assert(pushed[a] == cleaned[a]);
        }
    }
}

/// Among distinct keys, the scan outcome decides whether the key was present.
proof fn lemma_find_exact_from_distinct(
    old_entries: Seq<(Seq<char>, LevelFilter)>,
    module: Seq<char>,
    found: Option<usize>,
)
    requires
        match found {
            Some(j) => (j as int) < old_entries.len() && old_entries[j as int].0 == module,
            None => forall|k: int|
                0 <= k < old_entries.len() ==> (#[trigger] old_entries[k]).0 != module,
        },
    ensures
        (find_exact_in(old_entries, module) is Some) == (found is Some),
{
    crate::log_impl::lemma_find_exact_none_iff(old_entries, module);
}

/// Other keys look up the same before and after the replacement.
proof fn lemma_cleaned_lookup(
    old_entries: Seq<(Seq<char>, LevelFilter)>,
    cleaned: Seq<(Seq<char>, LevelFilter)>,
    module: Seq<char>,
    level: LevelFilter,
    found: Option<usize>,
)
    requires
        match found {
            Some(j) => (j as int) < old_entries.len() && old_entries[j as int].0 == module
                && cleaned == old_entries.remove(j as int),
            None => cleaned == old_entries,
        },
    ensures
        forall|k: Seq<char>|
            k != module ==> #[trigger] find_exact_in(cleaned.push((module, level)), k)
                == find_exact_in(old_entries, k),
{
    assert forall|k: Seq<char>| k != module implies #[trigger] find_exact_in(
        cleaned.push((module, level)),
        k,
    ) == find_exact_in(old_entries, k) by {
        crate::log_impl::lemma_find_exact_push(cleaned, (module, level), k);
        match found {
            Some(j) => {
                crate::log_impl::lemma_find_exact_remove_other(old_entries, j as int, k);
            },
            None => {},
        }
    }
}

impl Default for Dispatch {
    /// A configuration that does nothing with log records; the same as
    /// [`Dispatch::new`].
    fn default() -> (r: Self)
        ensures
            r.format is None,
            r.children@.len() == 0,
            r.default_level == LevelFilter::Trace,
            r.levels@.len() == 0,
            r.filters@.len() == 0,
    {
        Dispatch::new()
    }
}

impl Log for SharedDispatch {
    open spec fn enabled_spec(&self, level: crate::level::Level, target: Seq<char>) -> bool {
        crate::log_impl::spec_deep_enabled(*self.inner, level, target)
    }

    fn enabled(&self, level: crate::level::Level, target: &str) -> bool {
        let d: &crate::log_impl::Dispatch = &*self.inner;
        d.deep_enabled(level, target)
    }

    fn log(&self, record: &crate::record::Record) {
        let d: &crate::log_impl::Dispatch = &*self.inner;
        d.process(record)
    }

    fn flush(&self) {
        let d: &crate::log_impl::Dispatch = &*self.inner;
        d.flush_outputs()
    }
}

impl Output {
    /// Standard output, terminating each message with `line_sep`.
    pub fn stdout(line_sep: &str) -> (r: Output)
        ensures
            r.0 matches OutputInner::Stdout { line_sep: l } && l@ == line_sep@,
    {
        Output(OutputInner::Stdout { line_sep: line_sep.to_owned() })
    }

    /// Standard error, terminating each message with `line_sep`.
    pub fn stderr(line_sep: &str) -> (r: Output)
        ensures
            r.0 matches OutputInner::Stderr { line_sep: l } && l@ == line_sep@,
    {
        Output(OutputInner::Stderr { line_sep: line_sep.to_owned() })
    }

    /// A channel destination: each message plus `line_sep` is sent as one
    /// string, over exactly the given channel.
    pub fn sender(sender: std::sync::mpsc::Sender<String>, line_sep: &str) -> (r: Output)
        ensures
            r.0 matches OutputInner::Sender { stream: s, line_sep: l } && s.origin() == sender
                && l@ == line_sep@,
    {
        Output(
            OutputInner::Sender {
                stream: crate::stream::LockedSender::new(sender),
                line_sep: line_sep.to_owned(),
            },
        )
    }

    /// An arbitrary byte destination, terminating each message with
    /// `line_sep`: the result writes to exactly the given destination.
    pub fn writer(stream: Box<dyn ByteSink>, line_sep: &str) -> (r: Output)
        ensures
            r.0 matches OutputInner::Writer { stream: s, line_sep: l } && r.0
                == (OutputInner::Writer { stream, line_sep: l }) && l@ == line_sep@,
    {
        Output(OutputInner::Writer { stream, line_sep: line_sep.to_owned() })
    }

    /// A nested tree: the builder is compiled here, and the compiled subtree
    /// carries its computed minimum severity so a dead subtree can be elided
    /// by the enclosing compilation.
    pub fn child(config: Dispatch) -> (r: Output)
        ensures
            r.0 matches OutputInner::Dispatch { tree, min_level } && min_level
                == spec_builder_min(config) && tree@ == spec_compile(config),
    {
        let (min_level, tree) = config.into_dispatch();
        Output(OutputInner::Dispatch { tree, min_level })
    }

    /// A shared, already-compiled tree.
    pub fn shared(tree: SharedDispatch) -> (r: Output)
        ensures
            r.0 matches OutputInner::SharedDispatch(s) && s == tree,
    {
        Output(OutputInner::SharedDispatch(tree))
    }

    /// An opaque host-provided sink: the result wraps exactly the given one.
    pub fn logger(logger: Box<dyn Log>) -> (r: Output)
        ensures
            r.0 == OutputInner::Logger(logger),
    {
        Output(OutputInner::Logger(logger))
    }
}

/// The node's own most verbose cap is at least as verbose as its default.
pub proof fn lemma_levels_max_lower(s: Seq<(Seq<char>, LevelFilter)>, d: LevelFilter)
    ensures
        filter_rank(spec_levels_max(s, d)) >= filter_rank(d),
    decreases s.len(),
{
    if s.len() > 0 {
        lemma_levels_max_lower(s.drop_first(), d);
    }
}

/// A table in which no entry has the key misses it.
proof fn lemma_find_exact_none_from_no_key(
    entries: Seq<(Seq<char>, LevelFilter)>,
    key: Seq<char>,
)
    requires
        forall|k: int| 0 <= k < entries.len() ==> (#[trigger] entries[k]).0 != key,
    ensures
        find_exact_in(entries, key) is None,
{
    crate::log_impl::lemma_find_exact_none_iff(entries, key);
}

/// Appending a child folds that child's potential into the children's cap.
pub proof fn lemma_children_max_push(s: Seq<OutputInner>, c: OutputInner)
    ensures
        spec_children_max(s.push(c)) == spec_max_verbosity(
            spec_children_max(s),
            spec_child_potential(c),
        ),
    decreases s.len(),
{
    if s.len() == 0 {
        assert(s.push(c)[0] == c);
        assert(s.push(c).drop_first() =~= s);
    } else {
        lemma_children_max_push(s.drop_first(), c);
        assert(s.push(c)[0] == s[0]);
        assert(s.push(c).drop_first() =~= s.drop_first().push(c));
    }
}

/// Appending a child appends what that child compiles to.
pub proof fn lemma_compile_children_push(s: Seq<OutputInner>, c: OutputInner)
    ensures
        spec_compile_children(s.push(c)) == spec_compile_children(s) + spec_compile_one(c),
    decreases s.len(),
{
    if s.len() == 0 {
        assert(s.push(c)[0] == c);
        assert(s.push(c).drop_first() =~= s);
        assert(spec_compile_children(s.push(c)) =~= spec_compile_children(s) + spec_compile_one(
            c,
        ));
    } else {
        lemma_compile_children_push(s.drop_first(), c);
        assert(s.push(c)[0] == s[0]);
        assert(s.push(c).drop_first() =~= s.drop_first().push(c));
        assert(spec_compile_children(s.push(c)) =~= spec_compile_children(s) + spec_compile_one(
            c,
        ));
    }
}

/// A nested configuration whose default floor is `Off` and which carries no
/// overrides can never let an event through, whatever its children are: its
/// computed minimum is `Off`.
pub proof fn lemma_off_subtree_min(b: Dispatch)
    requires
        b.default_level == LevelFilter::Off,
        b.levels@.len() == 0,
    ensures
        spec_builder_min(b) == LevelFilter::Off,
{
    assert(entries_of(b.levels@) =~= Seq::<(Seq<char>, LevelFilter)>::empty());
}

/// Dead-subtree pruning: attaching a nested child whose computed minimum is
/// `Off` changes neither the computed minimum severity of the enclosing
/// configuration nor what it compiles to, exactly as if the subtree had
/// never been attached.
pub proof fn lemma_dead_subtree_elided(parent: Dispatch, attached: Dispatch, child: OutputInner)
    requires
        child matches OutputInner::Dispatch { tree: _, min_level } && min_level
            == LevelFilter::Off,
        attached.default_level == parent.default_level,
        attached.levels@ == parent.levels@,
        attached.filters@ == parent.filters@,
        attached.format == parent.format,
        attached.children@ == parent.children@.push(child),
    ensures
        spec_builder_min(attached) == spec_builder_min(parent),
        spec_compile(attached) == spec_compile(parent),
{
    lemma_children_max_push(parent.children@, child);
    lemma_compile_children_push(parent.children@, child);
    assert(spec_compile_one(child) =~= Seq::<OutputView>::empty());
    assert(spec_compile_children(attached.children@) =~= spec_compile_children(
        parent.children@,
    ));
}

/// Fan-out ordering: compilation keeps attachment order.  Whatever two
/// children are attached in sequence, what the earlier one compiles to
/// stands before what the later one compiles to, and the runtime fan-out
/// walks the compiled children first to last.
pub proof fn lemma_attachment_order_kept(
    children: Seq<OutputInner>,
    first: OutputInner,
    second: OutputInner,
)
    ensures
        spec_compile_children(children.push(first).push(second)) == spec_compile_children(children)
            + spec_compile_one(first) + spec_compile_one(second),
{
    lemma_compile_children_push(children, first);
    lemma_compile_children_push(children.push(first), second);
}

} // verus!
