//! Context engineering: assembles the minimum context needed for each
//! agent step.
//!
//! Context sources: user request, clarified answers, workspace summary,
//! relevant file snippets, architecture notes, diagnostics, git diff,
//! screenshot summary, MCP output and explicit constraints.

use vstd::prelude::*;
use vstd::utf8::encode_utf8;
use crate::text::{concat, has_prefix, lines, lines_seq, starts_with, str_eq, trim, trim_seq, views};

verus! {

/// Types of context that can be assembled for an agent step.
#[derive(Debug, Clone, Copy, PartialEq, Eq, Hash, Structural)]
pub enum ContextKind {
    UserRequest,
    ClarifiedAnswers,
    WorkspaceSummary,
    FileSnippet,
    ArchitectureNotes,
    Diagnostics,
    GitDiff,
    ScreenshotSummary,
    McpOutput,
    ExplicitConstraints,
}

/// A single context source with priority metadata.
#[derive(Debug, Clone)]
pub struct ContextSource {
    pub kind: ContextKind,
    pub content: String,
    /// Higher priority = included first when truncating.
    pub priority: u8,
}

pub struct ContextSourceView {
    pub kind: ContextKind,
    pub content: Seq<char>,
    pub priority: u8,
}

impl View for ContextSource {
    type V = ContextSourceView;

    open spec fn view(&self) -> ContextSourceView {
        ContextSourceView { kind: self.kind, content: self.content@, priority: self.priority }
    }
}

/// Assembled context ready to be injected into a prompt.
#[derive(Debug, Clone)]
pub struct AssembledContext {
    /// Ordered context sources (highest priority first).
    pub sources: Vec<ContextSource>,
    /// Estimated total token count.
    pub estimated_tokens: usize,
    /// Facts separated from assumptions.
    pub facts: Vec<String>,
    pub assumptions: Vec<String>,
}

/// High-value session memory persisted across interactions.
#[derive(Debug, Clone)]
pub struct SessionMemory {
    /// User-stated preferences.
    pub user_preferences: Vec<String>,
    /// Repo conventions discovered during the session.
    pub repo_conventions: Vec<String>,
    /// Confirmed technology stack.
    pub tech_stack: Vec<String>,
    /// Pending unresolved questions.
    pub pending_questions: Vec<String>,
}

/// `list` with `item` added at the end unless it is already there.
pub open spec fn record_once(list: Seq<Seq<char>>, item: Seq<char>) -> Seq<Seq<char>> {
    if list.contains(item) {
        list
    } else {
        list.push(item)
    }
}

fn push_once(list: &mut Vec<String>, item: String)
    ensures
        views(final(list)@) == record_once(views(old(list)@), item@),
{
    let mut i: usize = 0;
    while i < list.len()
        invariant
            i <= list@.len(),
            forall|k: int| 0 <= k < i ==> list@[k]@ != item@,
        decreases list@.len() - i,
    {
        if str_eq(list[i].as_str(), item.as_str()) {
            assert(views(list@)[i as int] == item@);
            return;
        }
        i += 1;
    }
    assert(!views(list@).contains(item@));
    let ghost before = list@;
    list.push(item);
    assert(views(list@) =~= views(before).push(item@));
}

impl SessionMemory {
    pub fn new() -> (res: Self)
        ensures
            res.user_preferences@.len() == 0,
            res.repo_conventions@.len() == 0,
            res.tech_stack@.len() == 0,
            res.pending_questions@.len() == 0,
    {
        SessionMemory {
            user_preferences: Vec::new(),
            repo_conventions: Vec::new(),
            tech_stack: Vec::new(),
            pending_questions: Vec::new(),
        }
    }

    /// Record a user preference (once).
    pub fn record_preference(&mut self, preference: String)
        ensures
            views(final(self).user_preferences@) == record_once(
                views(old(self).user_preferences@),
                preference@,
            ),
            final(self).repo_conventions == old(self).repo_conventions,
            final(self).tech_stack == old(self).tech_stack,
            final(self).pending_questions == old(self).pending_questions,
    {
        push_once(&mut self.user_preferences, preference);
    }

    /// Record a discovered repo convention (once).
    pub fn record_convention(&mut self, convention: String)
        ensures
            views(final(self).repo_conventions@) == record_once(
                views(old(self).repo_conventions@),
                convention@,
            ),
            final(self).user_preferences == old(self).user_preferences,
            final(self).tech_stack == old(self).tech_stack,
            final(self).pending_questions == old(self).pending_questions,
    {
        push_once(&mut self.repo_conventions, convention);
    }

    /// Record a confirmed tech stack item (once).
    pub fn record_tech(&mut self, tech: String)
        ensures
            views(final(self).tech_stack@) == record_once(views(old(self).tech_stack@), tech@),
            final(self).user_preferences == old(self).user_preferences,
            final(self).repo_conventions == old(self).repo_conventions,
            final(self).pending_questions == old(self).pending_questions,
    {
        push_once(&mut self.tech_stack, tech);
    }
}

impl Default for SessionMemory {
    fn default() -> (res: Self)
        ensures
            res.user_preferences@.len() == 0,
            res.repo_conventions@.len() == 0,
            res.tech_stack@.len() == 0,
            res.pending_questions@.len() == 0,
    {
        SessionMemory::new()
    }
}

/// Recording an item twice is the same as recording it once, and recording
/// keeps a list free of duplicates.
pub proof fn law_record_once(list: Seq<Seq<char>>, item: Seq<char>)
    ensures
        record_once(record_once(list, item), item) == record_once(list, item),
        record_once(list, item).contains(item),
        list.no_duplicates() ==> record_once(list, item).no_duplicates(),
{
    if !list.contains(item) {
        assert(list.push(item)[list.len() as int] == item);
        if list.no_duplicates() {
            assert forall|i: int, j: int|
                0 <= i < list.push(item).len() && 0 <= j < list.push(item).len() && i != j implies list.push(
                item,
            )[i] != list.push(item)[j] by {
                if i < list.len() && j < list.len() {
                } else if i == list.len() {
                    assert(list.push(item)[j] == list[j]);
                } else {
                    assert(list.push(item)[i] == list[i]);
                }
            }
        }
    }
}

/// The priority of each kind, in the order sources are collected (highest
/// first).
pub open spec fn priority_table() -> Seq<(ContextKind, u8)> {
    seq![
        (ContextKind::UserRequest, 10u8),
        (ContextKind::ClarifiedAnswers, 9u8),
        (ContextKind::ExplicitConstraints, 9u8),
        (ContextKind::WorkspaceSummary, 8u8),
        (ContextKind::ArchitectureNotes, 7u8),
        (ContextKind::FileSnippet, 6u8),
        (ContextKind::Diagnostics, 5u8),
        (ContextKind::GitDiff, 4u8),
        (ContextKind::McpOutput, 3u8),
        (ContextKind::ScreenshotSummary, 2u8),
    ]
}

/// The sources present in `m`, in the order of `table`.
pub open spec fn collect_sources(table: Seq<(ContextKind, u8)>, m: Map<ContextKind, Seq<char>>) -> Seq<
    ContextSourceView,
>
    decreases table.len(),
{
    if table.len() == 0 {
        Seq::empty()
    } else {
        let prev = collect_sources(table.drop_last(), m);
        let (k, p) = table.last();
        if m.contains_key(k) {
            prev.push(ContextSourceView { kind: k, content: m[k], priority: p })
        } else {
            prev
        }
    }
}

/// Estimated tokens of a text: its UTF-8 length (as `str::len` gives it)
/// divided by four.
pub open spec fn text_tokens(s: Seq<char>) -> nat {
    ((encode_utf8(s).len() as usize) / 4) as nat
}

/// Estimated tokens of a list of sources.
pub open spec fn tokens(s: Seq<ContextSourceView>) -> nat
    decreases s.len(),
{
    if s.len() == 0 {
        0
    } else {
        tokens(s.drop_last()) + text_tokens(s.last().content)
    }
}

/// The sources after dropping the lowest-priority ones while over budget,
/// always keeping at least one.
pub open spec fn truncate_sources(s: Seq<ContextSourceView>, max_tokens: nat) -> Seq<ContextSourceView>
    decreases s.len(),
{
    if tokens(s) > max_tokens && s.len() > 1 {
        truncate_sources(s.drop_last(), max_tokens)
    } else {
        s
    }
}

/// A constraint line that states an assumption.
pub open spec fn is_assumption(t: Seq<char>) -> bool {
    has_prefix(t, "assume:"@) || has_prefix(t, "assuming "@)
}

/// The facts among constraint lines: trimmed, non-empty, not assumptions.
pub open spec fn constraint_facts(ls: Seq<Seq<char>>) -> Seq<Seq<char>>
    decreases ls.len(),
{
    if ls.len() == 0 {
        Seq::empty()
    } else {
        let prev = constraint_facts(ls.drop_last());
        let t = trim_seq(ls.last());
        if !is_assumption(t) && t.len() > 0 {
            prev.push(t)
        } else {
            prev
        }
    }
}

/// The assumptions among constraint lines, trimmed.
pub open spec fn constraint_assumptions(ls: Seq<Seq<char>>) -> Seq<Seq<char>>
    decreases ls.len(),
{
    if ls.len() == 0 {
        Seq::empty()
    } else {
        let prev = constraint_assumptions(ls.drop_last());
        let t = trim_seq(ls.last());
        if is_assumption(t) {
            prev.push(t)
        } else {
            prev
        }
    }
}

/// Each item with a label in front.
pub open spec fn labelled(label: Seq<char>, items: Seq<Seq<char>>) -> Seq<Seq<char>> {
    items.map_values(|x: Seq<char>| label + x)
}

/// Context assembler — builds the right context for each pipeline step.
pub struct ContextAssembler {
    sources: Vec<(ContextKind, String)>,
    memory: SessionMemory,
}

/// The map of an association list where each kind occurs once.
pub open spec fn source_map(es: Seq<(ContextKind, String)>) -> Map<ContextKind, Seq<char>>
    decreases es.len(),
{
    if es.len() == 0 {
        Map::empty()
    } else {
        source_map(es.drop_last()).insert(es.last().0, es.last().1@)
    }
}

impl ContextAssembler {
    /// The content of each kind that has been added.
    pub closed spec fn sources_view(&self) -> Map<ContextKind, Seq<char>> {
        source_map(self.sources@)
    }

    /// The sources as they are kept, oldest first.
    pub closed spec fn entries(&self) -> Seq<(ContextKind, String)> {
        self.sources@
    }

    /// The session memory.
    pub closed spec fn memory_view(&self) -> SessionMemory {
        self.memory
    }

    pub fn new() -> (res: Self)
        ensures
            res.sources_view() == Map::<ContextKind, Seq<char>>::empty(),
            res.memory_view().user_preferences@.len() == 0,
            res.memory_view().repo_conventions@.len() == 0,
            res.memory_view().tech_stack@.len() == 0,
            res.memory_view().pending_questions@.len() == 0,
    {
        ContextAssembler { sources: Vec::new(), memory: SessionMemory::new() }
    }

    /// Add a context source; a later source of the same kind replaces the
    /// earlier one, which is no longer kept.
    pub fn add_source(&mut self, kind: ContextKind, content: String)
        ensures
            final(self).sources_view() == old(self).sources_view().insert(kind, content@),
            final(self).entries() == without_kind(old(self).entries(), kind).push((kind, content)),
            final(self).memory_view() == old(self).memory_view(),
    {
        let ghost before = self.sources@;
        let mut old_list: Vec<(ContextKind, String)> = Vec::new();
        std::mem::swap(&mut old_list, &mut self.sources);
        let n = old_list.len();
        let mut kept: Vec<(ContextKind, String)> = Vec::new();
        let mut k: usize = 0;
        while old_list.len() > 0
            invariant
                k + old_list@.len() == n,
                n == before.len(),
                old_list@ == before.subrange(k as int, n as int),
                kept@ == without_kind(before.subrange(0, k as int), kind),
            decreases old_list@.len(),
        {
            let e = old_list.remove(0);
            proof {
                assert(e == before[k as int]);
                assert(before.subrange(0, k + 1).drop_last() =~= before.subrange(0, k as int));
                assert(before.subrange(0, k + 1).last() == e);
                assert(old_list@ =~= before.subrange(k + 1, n as int));
            }
            if e.0 != kind {
                kept.push(e);
            }
            k += 1;
        }
        proof {
            assert(before.subrange(0, n as int) =~= before);
            lemma_without_kind(before, kind);
        }
        let ghost trimmed = kept@;
        kept.push((kind, content));
        assert(kept@.drop_last() == trimmed);
        assert(source_map(kept@) =~= source_map(before).insert(kind, content@));
        self.sources = kept;
    }

    /// Set session memory (e.g. loaded from persistence).
    pub fn set_memory(&mut self, memory: SessionMemory)
        ensures
            final(self).memory_view() == memory,
            final(self).sources_view() == old(self).sources_view(),
    {
        self.memory = memory;
    }

    /// Get a reference to session memory.
    pub fn memory(&self) -> (res: &SessionMemory)
        ensures
            *res == self.memory_view(),
    {
        &self.memory
    }

    /// Get a mutable reference to session memory.
    pub fn memory_mut(&mut self) -> (res: &mut SessionMemory)
        ensures
            *res == old(self).memory_view(),
            final(self).memory_view() == *final(res),
            final(self).sources_view() == old(self).sources_view(),
    {
        &mut self.memory
    }

    fn lookup(&self, kind: ContextKind) -> (res: Option<&String>)
        ensures
            match res {
                Some(s) => self.sources_view().contains_key(kind) && self.sources_view()[kind] == s@,
                None => !self.sources_view().contains_key(kind),
            },
    {
        let mut i = self.sources.len();
        while i > 0
            invariant
                i <= self.sources@.len(),
                forall|j: int| i <= j < self.sources@.len() ==> self.sources@[j].0 != kind,
            decreases i,
        {
            if self.sources[i - 1].0 == kind {
                proof {
                    lemma_source_map_last(self.sources@, kind, (i - 1) as int);
                }
                return Some(&self.sources[i - 1].1);
            }
            i -= 1;
        }
        proof {
            lemma_source_map_absent(self.sources@, kind);
        }
        None
    }
}

proof fn lemma_source_map_last(es: Seq<(ContextKind, String)>, kind: ContextKind, i: int)
    requires
        0 <= i < es.len(),
        es[i].0 == kind,
        forall|j: int| i < j < es.len() ==> es[j].0 != kind,
    ensures
        source_map(es).contains_key(kind),
        source_map(es)[kind] == es[i].1@,
    decreases es.len(),
{
    if i < es.len() - 1 {
        assert forall|j: int| i < j < es.drop_last().len() implies es.drop_last()[j].0 != kind by {
            assert(es.drop_last()[j] == es[j]);
        }
        lemma_source_map_last(es.drop_last(), kind, i);
    }
}

proof fn lemma_source_map_absent(es: Seq<(ContextKind, String)>, kind: ContextKind)
    requires
        forall|j: int| 0 <= j < es.len() ==> es[j].0 != kind,
    ensures
        !source_map(es).contains_key(kind),
    decreases es.len(),
{
    if es.len() > 0 {
        assert forall|j: int| 0 <= j < es.drop_last().len() implies es.drop_last()[j].0 != kind by {
            assert(es.drop_last()[j] == es[j]);
        }
        lemma_source_map_absent(es.drop_last(), kind);
    }
}


proof fn lemma_tokens_prefix(s: Seq<ContextSourceView>, i: int)
    requires
        0 <= i <= s.len(),
    ensures
        tokens(s.take(i)) <= tokens(s),
    decreases s.len() - i,
{
    if i < s.len() {
        lemma_tokens_prefix(s, i + 1);
        assert(s.take(i + 1).drop_last() == s.take(i));
    } else {
        assert(s.take(i) == s);
    }
}

fn tokens_of(sources: &Vec<ContextSource>) -> (res: usize)
    requires
        tokens(sources@.map_values(|c: ContextSource| c@)) <= usize::MAX,
    ensures
        res == tokens(sources@.map_values(|c: ContextSource| c@)),
{
    let ghost sv = sources@.map_values(|c: ContextSource| c@);
    let mut total: usize = 0;
    let mut i: usize = 0;
    while i < sources.len()
        invariant
            i <= sources@.len(),
            sv == sources@.map_values(|c: ContextSource| c@),
            tokens(sv) <= usize::MAX,
            total == tokens(sv.take(i as int)),
        decreases sources@.len() - i,
    {
        proof {
            lemma_tokens_prefix(sv, i + 1);
            assert(sv.take(i + 1).drop_last() == sv.take(i as int));
            assert(sv.take(i + 1).last() == sources@[i as int]@);
        }
        let n = sources[i].content.as_str().len();
        total = total + n / 4;
        i += 1;
    }
    assert(sv.take(sources@.len() as int) == sv);
    total
}

/// Texts with a label in front.
fn labelled_into(out: &mut Vec<String>, label: &str, items: &Vec<String>)
    ensures
        views(final(out)@) == views(old(out)@) + labelled(label@, views(items@)),
{
    let ghost start = views(out@);
    let mut i: usize = 0;
    while i < items.len()
        invariant
            i <= items@.len(),
            views(out@) == start + labelled(label@, views(items@)).take(i as int),
        decreases items@.len() - i,
    {
        let ghost before = out@;
        out.push(concat(label, items[i].as_str()));
        proof {
            assert(labelled(label@, views(items@)).take(i + 1) == labelled(label@, views(items@)).take(
                i as int,
            ).push(label@ + items@[i as int]@));
            assert(views(out@) =~= views(before).push(label@ + items@[i as int]@));
        }
        i += 1;
    }
    assert(labelled(label@, views(items@)).take(items@.len() as int) == labelled(
        label@,
        views(items@),
    ));
}

impl ContextAssembler {
    /// The sources collected for assembly, before truncation.
    pub open spec fn collected(&self) -> Seq<ContextSourceView> {
        collect_sources(priority_table(), self.sources_view())
    }

    /// Whether the token estimate of the collected sources fits a `usize`
    /// (the condition [`ContextAssembler::assemble`] needs).
    pub fn estimate_fits(&self) -> (res: bool)
        ensures
            res == (tokens(self.collected()) <= usize::MAX),
    {
        let table: [ContextKind; 10] = [
            ContextKind::UserRequest,
            ContextKind::ClarifiedAnswers,
            ContextKind::ExplicitConstraints,
            ContextKind::WorkspaceSummary,
            ContextKind::ArchitectureNotes,
            ContextKind::FileSnippet,
            ContextKind::Diagnostics,
            ContextKind::GitDiff,
            ContextKind::McpOutput,
            ContextKind::ScreenshotSummary,
        ];
        let ghost m = self.sources_view();
        let ghost pt = priority_table();
        assert(forall|i: int| 0 <= i < 10 ==> #[trigger] table@[i] == pt[i].0);
        let mut total: usize = 0;
        let mut k: usize = 0;
        while k < 10
            invariant
                k <= 10,
                pt == priority_table(),
                forall|i: int| 0 <= i < 10 ==> #[trigger] table@[i] == pt[i].0,
                m == self.sources_view(),
                total == tokens(collect_sources(pt.take(k as int), m)),
            decreases 10 - k,
        {
            let kind = table[k];
            proof {
                assert(pt.take(k + 1).drop_last() == pt.take(k as int));
                assert(pt.take(k + 1).last() == pt[k as int]);
            }
            match self.lookup(kind) {
                Some(content) => {
                    let ghost prev = collect_sources(pt.take(k as int), m);
                    let add = content.as_str().len() / 4;
                    proof {
                        let src = ContextSourceView { kind, content: m[kind], priority: pt[k as int].1 };
                        assert(prev.push(src).drop_last() =~= prev);
                        assert(tokens(prev.push(src)) == tokens(prev) + text_tokens(m[kind]));
                    }
                    match total.checked_add(add) {
                        Some(t) => {
                            total = t;
                        },
                        None => {
                            proof {
                                lemma_tokens_grow(pt, m, (k + 1) as int);
                            }
                            return false;
                        },
                    }
                },
                None => {},
            }
            k += 1;
        }
        assert(pt.take(10) == pt);
        true
    }

    /// Assemble context for a pipeline step: the present sources in priority
    /// order (the table is already ordered from highest priority down, so
    /// sorting by priority keeps it as it is), the lowest-priority ones
    /// dropped while the estimate exceeds `max_tokens` and more than one is
    /// left; session memory and explicit constraints become facts, and
    /// constraint lines starting with `assume:` or `assuming ` become
    /// assumptions.
    pub fn assemble(&self, max_tokens: usize) -> (res: AssembledContext)
        requires
            tokens(self.collected()) <= usize::MAX,
        ensures
            res.sources@.map_values(|c: ContextSource| c@) == truncate_sources(
                self.collected(),
                max_tokens as nat,
            ),
            res.estimated_tokens == tokens(truncate_sources(self.collected(), max_tokens as nat)),
            views(res.facts@) == assembled_facts(self.memory_view(), self.sources_view()),
            views(res.assumptions@) == if self.sources_view().contains_key(
                ContextKind::ExplicitConstraints,
            ) {
                constraint_assumptions(lines_seq(self.sources_view()[ContextKind::ExplicitConstraints]))
            } else {
                Seq::empty()
            },
    {
        let table: [(ContextKind, u8); 10] = [
            (ContextKind::UserRequest, 10),
            (ContextKind::ClarifiedAnswers, 9),
            (ContextKind::ExplicitConstraints, 9),
            (ContextKind::WorkspaceSummary, 8),
            (ContextKind::ArchitectureNotes, 7),
            (ContextKind::FileSnippet, 6),
            (ContextKind::Diagnostics, 5),
            (ContextKind::GitDiff, 4),
            (ContextKind::McpOutput, 3),
            (ContextKind::ScreenshotSummary, 2),
        ];
        assert(table@ == priority_table());
        let ghost m = self.sources_view();
        let mut all_sources: Vec<ContextSource> = Vec::new();
        let mut k: usize = 0;
        while k < 10
            invariant
                k <= 10,
                table@ == priority_table(),
                m == self.sources_view(),
                all_sources@.map_values(|c: ContextSource| c@) == collect_sources(
                    priority_table().take(k as int),
                    m,
                ),
            decreases 10 - k,
        {
            let (kind, priority) = table[k];
            let ghost before = all_sources@;
            proof {
                assert(priority_table().take(k + 1).drop_last() == priority_table().take(k as int));
                assert(priority_table().take(k + 1).last() == (kind, priority));
            }
            match self.lookup(kind) {
                Some(content) => {
                    all_sources.push(ContextSource { kind, content: content.clone(), priority });
                    assert(all_sources@.map_values(|c: ContextSource| c@) =~= before.map_values(
                        |c: ContextSource| c@,
                    ).push(ContextSourceView { kind, content: m[kind], priority }));
                },
                None => {},
            }
            k += 1;
        }
        assert(priority_table().take(10) == priority_table());

        let mut facts: Vec<String> = Vec::new();
        let mut assumptions: Vec<String> = Vec::new();
        assert(views(facts@) =~= Seq::<Seq<char>>::empty());
        labelled_into(&mut facts, "[user preference] ", &self.memory.user_preferences);
        labelled_into(&mut facts, "[repo convention] ", &self.memory.repo_conventions);
        labelled_into(&mut facts, "[tech stack] ", &self.memory.tech_stack);
        let ghost memory_facts = views(facts@);
        assert(views(assumptions@) =~= Seq::<Seq<char>>::empty());
        match self.lookup(ContextKind::ExplicitConstraints) {
            Some(constraints) => {
                let ls = lines(constraints.as_str());
                let ghost lv = views(ls@);
                let mut i: usize = 0;
                assert(lv.take(0) =~= Seq::<Seq<char>>::empty());
                while i < ls.len()
                    invariant
                        i <= ls@.len(),
                        lv == views(ls@),
                        views(facts@) == memory_facts + constraint_facts(lv.take(i as int)),
                        views(assumptions@) == constraint_assumptions(lv.take(i as int)),
                    decreases ls@.len() - i,
                {
                    let trimmed = trim(ls[i].as_str());
                    proof {
                        assert(lv.take(i + 1).drop_last() == lv.take(i as int));
                        assert(lv.take(i + 1).last() == ls@[i as int]@);
                    }
                    let ghost fb = facts@;
                    let ghost ab = assumptions@;
                    if starts_with(trimmed.as_str(), "assume:") || starts_with(trimmed.as_str(), "assuming ") {
                        assumptions.push(trimmed);
                        assert(views(assumptions@) =~= views(ab).push(trimmed@));
                    } else if !trimmed.as_str().is_empty() {
                        facts.push(trimmed);
                        assert(views(facts@) =~= views(fb).push(trimmed@));
                    }
                    i += 1;
                }
                assert(lv.take(ls@.len() as int) == lv);
            },
            None => {
                assert(views(facts@) =~= memory_facts + Seq::<Seq<char>>::empty());
            },
        }

        // Sorting by priority (descending, stable) leaves the collected order
        // unchanged: the table is already in that order.
        let ghost full = all_sources@.map_values(|c: ContextSource| c@);
        let mut sources = all_sources;
        let mut total_est = tokens_of(&sources);
        while total_est > max_tokens && sources.len() > 1
            invariant
                full == self.collected(),
                tokens(full) <= usize::MAX,
                tokens(sources@.map_values(|c: ContextSource| c@)) <= tokens(full),
                truncate_sources(full, max_tokens as nat) == truncate_sources(
                    sources@.map_values(|c: ContextSource| c@),
                    max_tokens as nat,
                ),
                total_est == tokens(sources@.map_values(|c: ContextSource| c@)),
            decreases sources@.len(),
        {
            let ghost before = sources@.map_values(|c: ContextSource| c@);
            sources.pop();
            assert(sources@.map_values(|c: ContextSource| c@) =~= before.drop_last());
            total_est = tokens_of(&sources);
        }
        AssembledContext { sources, estimated_tokens: total_est, facts, assumptions }
    }
}

/// The assembled sources run from highest to lowest priority.
pub proof fn law_sources_by_priority(m: Map<ContextKind, Seq<char>>, max_tokens: nat)
    ensures
        ({
            let s = truncate_sources(collect_sources(priority_table(), m), max_tokens);
            forall|i: int, j: int| 0 <= i <= j < s.len() ==> s[i].priority >= s[j].priority
        }),
{
    let t = priority_table();
    assert forall|i: int| 0 <= i < t.len() - 1 implies #[trigger] t[i].1 >= t[i + 1].1 by {
        if i == 0 {} else if i == 1 {} else if i == 2 {} else if i == 3 {} else if i == 4 {
        } else if i == 5 {} else if i == 6 {} else if i == 7 {} else {}
    }
    lemma_collect_sorted(priority_table(), m);
    let c = collect_sources(priority_table(), m);
    lemma_truncate_prefix(c, max_tokens);
    let s = truncate_sources(c, max_tokens);
    assert forall|i: int, j: int| 0 <= i <= j < s.len() implies s[i].priority >= s[j].priority by {
        assert(s[i] == c[i] && s[j] == c[j]);
    }
}

proof fn lemma_collect_sorted(table: Seq<(ContextKind, u8)>, m: Map<ContextKind, Seq<char>>)
    requires
        forall|i: int| 0 <= i < table.len() - 1 ==> #[trigger] table[i].1 >= table[i + 1].1,
    ensures
        forall|i: int, j: int|
            0 <= i <= j < collect_sources(table, m).len() ==> collect_sources(table, m)[i].priority
                >= collect_sources(table, m)[j].priority,
        table.len() > 0 ==> forall|i: int|
            0 <= i < collect_sources(table, m).len() ==> collect_sources(table, m)[i].priority
                >= table.last().1,
    decreases table.len(),
{
    if table.len() > 0 {
        let t = table.drop_last();
        assert forall|i: int| 0 <= i < t.len() - 1 implies #[trigger] t[i].1 >= t[i + 1].1 by {
            assert(t[i] == table[i] && t[i + 1] == table[i + 1]);
        }
        lemma_collect_sorted(t, m);
        let prev = collect_sources(t, m);
        let s = collect_sources(table, m);
        if t.len() > 0 {
            assert(t.last() == table[table.len() - 2]);
            assert(table[table.len() - 2].1 >= table[table.len() - 1].1);
        }
        assert forall|i: int| 0 <= i < prev.len() implies prev[i].priority >= table.last().1 by {}
        if m.contains_key(table.last().0) {
            assert forall|i: int, j: int| 0 <= i <= j < s.len() implies s[i].priority
                >= s[j].priority by {
                if j == s.len() - 1 && i < j {
                    assert(s[i] == prev[i]);
                } else if j < s.len() - 1 {
                    assert(s[i] == prev[i] && s[j] == prev[j]);
                }
            }
            assert forall|i: int| 0 <= i < s.len() implies s[i].priority >= table.last().1 by {
                if i < s.len() - 1 {
                    assert(s[i] == prev[i]);
                }
            }
        }
    }
}

proof fn lemma_truncate_prefix(s: Seq<ContextSourceView>, max_tokens: nat)
    ensures
        truncate_sources(s, max_tokens).len() <= s.len(),
        forall|i: int|
            0 <= i < truncate_sources(s, max_tokens).len() ==> truncate_sources(s, max_tokens)[i]
                == s[i],
    decreases s.len(),
{
    if tokens(s) > max_tokens && s.len() > 1 {
        lemma_truncate_prefix(s.drop_last(), max_tokens);
        assert forall|i: int|
            0 <= i < truncate_sources(s, max_tokens).len() implies truncate_sources(s, max_tokens)[i]
                == s[i] by {
            assert(s.drop_last()[i] == s[i]);
        }
    }
}

/// Truncation keeps at least one source whenever there is one, and the
/// estimate fits the budget unless a single source is left.
pub proof fn law_truncation_respects_budget(s: Seq<ContextSourceView>, max_tokens: nat)
    ensures
        s.len() > 0 ==> truncate_sources(s, max_tokens).len() >= 1,
        tokens(truncate_sources(s, max_tokens)) <= max_tokens || truncate_sources(
            s,
            max_tokens,
        ).len() <= 1,
    decreases s.len(),
{
    if tokens(s) > max_tokens && s.len() > 1 {
        law_truncation_respects_budget(s.drop_last(), max_tokens);
    }
}


/// Collecting more of the table never lowers the token estimate.
proof fn lemma_tokens_grow(table: Seq<(ContextKind, u8)>, m: Map<ContextKind, Seq<char>>, k: int)
    requires
        0 <= k <= table.len(),
    ensures
        tokens(collect_sources(table.take(k), m)) <= tokens(collect_sources(table, m)),
    decreases table.len() - k,
{
    if k < table.len() {
        lemma_tokens_grow(table, m, k + 1);
        let prev = collect_sources(table.take(k), m);
        assert(table.take(k + 1).drop_last() == table.take(k));
        let (kk, p) = table.take(k + 1).last();
        if m.contains_key(kk) {
            let src = ContextSourceView { kind: kk, content: m[kk], priority: p };
            assert(prev.push(src).drop_last() =~= prev);
        }
    } else {
        assert(table.take(k) == table);
    }
}


/// Constraint lines are split cleanly: every assumption states one, and no
/// fact does; facts are never blank.
pub proof fn law_facts_apart_from_assumptions(ls: Seq<Seq<char>>)
    ensures
        forall|i: int|
            0 <= i < constraint_assumptions(ls).len() ==> is_assumption(
                #[trigger] constraint_assumptions(ls)[i],
            ),
        forall|i: int|
            0 <= i < constraint_facts(ls).len() ==> !is_assumption(#[trigger] constraint_facts(ls)[i])
                && constraint_facts(ls)[i].len() > 0,
    decreases ls.len(),
{
    if ls.len() > 0 {
        law_facts_apart_from_assumptions(ls.drop_last());
        let pa = constraint_assumptions(ls.drop_last());
        let pf = constraint_facts(ls.drop_last());
        assert forall|i: int| 0 <= i < constraint_assumptions(ls).len() implies is_assumption(
            #[trigger] constraint_assumptions(ls)[i],
        ) by {
            if i < pa.len() {
                assert(constraint_assumptions(ls)[i] == pa[i]);
            }
        }
        assert forall|i: int| 0 <= i < constraint_facts(ls).len() implies !is_assumption(
            #[trigger] constraint_facts(ls)[i],
        ) && constraint_facts(ls)[i].len() > 0 by {
            if i < pf.len() {
                assert(constraint_facts(ls)[i] == pf[i]);
            }
        }
    }
}


/// The entries of `es` of any kind but `kind`, in order.
pub open spec fn without_kind(es: Seq<(ContextKind, String)>, kind: ContextKind) -> Seq<(ContextKind, String)>
    decreases es.len(),
{
    if es.len() == 0 {
        seq![]
    } else if es.last().0 == kind {
        without_kind(es.drop_last(), kind)
    } else {
        without_kind(es.drop_last(), kind).push(es.last())
    }
}

proof fn lemma_without_kind(es: Seq<(ContextKind, String)>, kind: ContextKind)
    ensures
        source_map(without_kind(es, kind)) == source_map(es).remove(kind),
        forall|i: int| 0 <= i < without_kind(es, kind).len() ==> (#[trigger] without_kind(es, kind)[i]).0 != kind,
    decreases es.len(),
{
    if es.len() == 0 {
        assert(source_map(es) =~= Map::<ContextKind, Seq<char>>::empty());
        assert(Map::<ContextKind, Seq<char>>::empty().remove(kind) =~= Map::<ContextKind, Seq<char>>::empty());
    } else {
        lemma_without_kind(es.drop_last(), kind);
        let rest = without_kind(es.drop_last(), kind);
        if es.last().0 == kind {
            assert(source_map(es).remove(kind) =~= source_map(es.drop_last()).remove(kind));
        } else {
            assert(rest.push(es.last()).drop_last() == rest);
            assert(source_map(rest.push(es.last())) =~= source_map(es).remove(kind));
        }
    }
}


/// A larger budget never drops a source that a smaller budget keeps: the
/// sources kept under `small` are a prefix of those kept under `large`.
pub proof fn law_larger_budget_keeps_more(s: Seq<ContextSourceView>, small: nat, large: nat)
    requires
        small <= large,
    ensures
        truncate_sources(s, small).len() <= truncate_sources(s, large).len(),
        truncate_sources(s, small) == truncate_sources(s, large).take(
            truncate_sources(s, small).len() as int,
        ),
    decreases s.len(),
{
    if tokens(s) > large && s.len() > 1 {
        law_larger_budget_keeps_more(s.drop_last(), small, large);
    } else {
        lemma_truncate_prefix(s, small);
        let t = truncate_sources(s, small);
        assert(t =~= s.take(t.len() as int));
    }
}

/// Recording each item of `items` in turn, starting from `list`.
pub open spec fn record_all(list: Seq<Seq<char>>, items: Seq<Seq<char>>) -> Seq<Seq<char>>
    decreases items.len(),
{
    if items.len() == 0 {
        list
    } else {
        record_once(record_all(list, items.drop_last()), items.last())
    }
}

/// Whether no item occurs twice.
pub open spec fn no_repeats(list: Seq<Seq<char>>) -> bool {
    forall|i: int, j: int| 0 <= i < j < list.len() ==> #[trigger] list[i] != #[trigger] list[j]
}

/// Recording a sequence of items (preferences, conventions or
/// technologies) from an empty memory list keeps each distinct item once,
/// in the order it was first recorded: the list has no repeats, holds
/// exactly the recorded items, and recording more only adds at the end.
pub proof fn law_recording_sequence(items: Seq<Seq<char>>)
    ensures
        no_repeats(record_all(seq![], items)),
        forall|x: Seq<char>| #[trigger] record_all(seq![], items).contains(x) <==> items.contains(x),
        forall|k: int|
            0 <= k <= items.len() ==> #[trigger] record_all(seq![], items.take(k)).len()
                <= record_all(seq![], items).len() && record_all(seq![], items.take(k))
                == record_all(seq![], items).take(record_all(seq![], items.take(k)).len() as int),
    decreases items.len(),
{
    if items.len() > 0 {
        let rest = items.drop_last();
        law_recording_sequence(rest);
        let prev = record_all(seq![], rest);
        let x = items.last();
        let cur = record_all(seq![], items);
        assert(cur == record_once(prev, x));
        if !prev.contains(x) {
            assert forall|i: int, j: int| 0 <= i < j < cur.len() implies #[trigger] cur[i]
                != #[trigger] cur[j] by {
                if j == prev.len() {
                    assert(cur[i] == prev[i]);
                    assert(prev.contains(prev[i]));
                }
                else {
                    assert(cur[i] == prev[i] && cur[j] == prev[j]);
                }
            }
        }
        assert forall|y: Seq<char>| #[trigger] cur.contains(y) <==> items.contains(y) by {
            if cur.contains(y) && y != x {
                let i = choose|i: int| 0 <= i < cur.len() && cur[i] == y;
                if !prev.contains(x) && i < prev.len() {
                    assert(cur[i] == prev.push(x)[i]);
                }
                assert(prev[i] == y);
                assert(prev.contains(y));
                let j = choose|j: int| 0 <= j < rest.len() && rest[j] == y;
                assert(items[j] == y);
            }
            if items.contains(y) && y != x {
                let j = choose|j: int| 0 <= j < items.len() && items[j] == y;
                assert(j < rest.len());
                assert(rest[j] == y);
                assert(rest.contains(y));
                assert(prev.contains(y));
                let i = choose|i: int| 0 <= i < prev.len() && prev[i] == y;
                if !prev.contains(x) {
                    assert(cur[i] == prev.push(x)[i]);
                }
                assert(cur[i] == y);
            }
            if y == x {
                assert(items[items.len() - 1] == x);
                if !prev.contains(x) {
                    assert(cur[prev.len() as int] == x);
                }
            }
        }
        assert forall|k: int| 0 <= k <= items.len() implies #[trigger] record_all(seq![], items.take(k)).len()
            <= cur.len() && record_all(seq![], items.take(k))
            == cur.take(record_all(seq![], items.take(k)).len() as int) by {
            if k == items.len() {
                assert(items.take(k) =~= items);
                assert(cur.take(cur.len() as int) =~= cur);
            } else {
                assert(items.take(k) =~= rest.take(k));
                let p = record_all(seq![], rest.take(k));
                assert(p.len() <= prev.len());
                assert(p == prev.take(p.len() as int));
                assert(cur.take(p.len() as int) =~= prev.take(p.len() as int));
            }
        }
    } else {
        assert forall|k: int| 0 <= k <= items.len() implies #[trigger] record_all(seq![], items.take(k)).len()
            <= record_all(seq![], items).len() && record_all(seq![], items.take(k))
            == record_all(seq![], items).take(record_all(seq![], items.take(k)).len() as int) by {
            assert(items.take(k) =~= items);
            assert(record_all(seq![], items).take(0) =~= Seq::<Seq<char>>::empty());
        }
    }
}

/// The facts an assembly reports for a memory and a set of sources: the
/// memory's preferences, conventions and technologies, each labelled, then
/// the facts among the explicit constraint lines.
pub open spec fn assembled_facts(memory: SessionMemory, sources: Map<ContextKind, Seq<char>>) -> Seq<
    Seq<char>,
> {
    labelled("[user preference] "@, views(memory.user_preferences@)) + labelled(
        "[repo convention] "@,
        views(memory.repo_conventions@),
    ) + labelled("[tech stack] "@, views(memory.tech_stack@)) + (if sources.contains_key(
        ContextKind::ExplicitConstraints,
    ) {
        constraint_facts(lines_seq(sources[ContextKind::ExplicitConstraints]))
    } else {
        Seq::empty()
    })
}

/// The facts start with the whole session memory, each item labelled:
/// first every preference, then every repo convention, then every confirmed
/// technology, in their order, and only then the constraint facts; so after
/// `set_memory(m)` an assembly's facts begin with `m`'s preferences, and
/// there are at least as many facts as memory items.
pub proof fn law_facts_begin_with_preferences(memory: SessionMemory, sources: Map<ContextKind, Seq<char>>)
    ensures
        assembled_facts(memory, sources).len() >= memory.user_preferences@.len()
            + memory.repo_conventions@.len() + memory.tech_stack@.len(),
        forall|i: int|
            0 <= i < memory.user_preferences@.len() ==> #[trigger] assembled_facts(memory, sources)[i]
                == "[user preference] "@ + memory.user_preferences@[i]@,
        forall|i: int|
            0 <= i < memory.repo_conventions@.len() ==> #[trigger] assembled_facts(memory, sources)[
                memory.user_preferences@.len() + i] == "[repo convention] "@
                + memory.repo_conventions@[i]@,
        forall|i: int|
            0 <= i < memory.tech_stack@.len() ==> #[trigger] assembled_facts(memory, sources)[
                memory.user_preferences@.len() + memory.repo_conventions@.len() + i] == "[tech stack] "@
                + memory.tech_stack@[i]@,
{
}

/// Each kind present shows up in the collected sources exactly once, with
/// its latest content; a kind that was never added does not show up.
pub proof fn law_one_source_per_kind(m: Map<ContextKind, Seq<char>>, kind: ContextKind)
    ensures
        m.contains_key(kind) ==> exists|i: int|
            0 <= i < collect_sources(priority_table(), m).len() && (#[trigger] collect_sources(
                priority_table(),
                m,
            )[i]).kind == kind && collect_sources(priority_table(), m)[i].content == m[kind]
                && forall|j: int|
                0 <= j < collect_sources(priority_table(), m).len() && j != i ==> collect_sources(
                    priority_table(),
                    m,
                )[j].kind != kind,
        !m.contains_key(kind) ==> forall|j: int|
            0 <= j < collect_sources(priority_table(), m).len() ==> (#[trigger] collect_sources(
                priority_table(),
                m,
            )[j]).kind != kind,
{
    let t = priority_table();
    assert forall|a: int, b: int| 0 <= a < b < t.len() implies #[trigger] t[a].0 != #[trigger] t[b].0 by {
    }
    assert(exists|k: int| 0 <= k < t.len() && t[k].0 == kind) by {
        match kind {
            ContextKind::UserRequest => assert(t[0].0 == kind),
            ContextKind::ClarifiedAnswers => assert(t[1].0 == kind),
            ContextKind::ExplicitConstraints => assert(t[2].0 == kind),
            ContextKind::WorkspaceSummary => assert(t[3].0 == kind),
            ContextKind::ArchitectureNotes => assert(t[4].0 == kind),
            ContextKind::FileSnippet => assert(t[5].0 == kind),
            ContextKind::Diagnostics => assert(t[6].0 == kind),
            ContextKind::GitDiff => assert(t[7].0 == kind),
            ContextKind::McpOutput => assert(t[8].0 == kind),
            ContextKind::ScreenshotSummary => assert(t[9].0 == kind),
        }
    }
    lemma_collect_kinds(t, m, kind);
}

proof fn lemma_collect_kinds(t: Seq<(ContextKind, u8)>, m: Map<ContextKind, Seq<char>>, kind: ContextKind)
    requires
        forall|a: int, b: int| 0 <= a < b < t.len() ==> #[trigger] t[a].0 != #[trigger] t[b].0,
    ensures
        ({
            let c = collect_sources(t, m);
            &&& (m.contains_key(kind) && exists|k: int| 0 <= k < t.len() && t[k].0 == kind) ==> exists|i: int|
                0 <= i < c.len() && (#[trigger] c[i]).kind == kind && c[i].content == m[kind]
                    && forall|j: int| 0 <= j < c.len() && j != i ==> c[j].kind != kind
            &&& !(m.contains_key(kind) && exists|k: int| 0 <= k < t.len() && t[k].0 == kind) ==> forall|j: int|
                0 <= j < c.len() ==> (#[trigger] c[j]).kind != kind
        }),
    decreases t.len(),
{
    if t.len() > 0 {
        let rest = t.drop_last();
        assert forall|a: int, b: int| 0 <= a < b < rest.len() implies #[trigger] rest[a].0
            != #[trigger] rest[b].0 by {
            assert(rest[a] == t[a] && rest[b] == t[b]);
        }
        lemma_collect_kinds(rest, m, kind);
        let prev = collect_sources(rest, m);
        let c = collect_sources(t, m);
        let (k, p) = t.last();
        assert(t[t.len() - 1] == t.last());
        let in_rest = exists|x: int| 0 <= x < rest.len() && rest[x].0 == kind;
        let in_t = exists|x: int| 0 <= x < t.len() && t[x].0 == kind;
        if in_t && !in_rest {
            let x = choose|x: int| 0 <= x < t.len() && t[x].0 == kind;
            if x < rest.len() {
                assert(rest[x] == t[x]);
            }
            assert(k == kind);
        }
        if in_rest {
            let x = choose|x: int| 0 <= x < rest.len() && rest[x].0 == kind;
            assert(rest[x] == t[x]);
            assert(k != kind);
            assert(in_t);
        }
        if m.contains_key(k) {
            let src = ContextSourceView { kind: k, content: m[k], priority: p };
            assert(c == prev.push(src));
            if k == kind && m.contains_key(kind) {
                assert(c[prev.len() as int] == src);
            }
            if m.contains_key(kind) && in_rest {
                let i = choose|i: int|
                    0 <= i < prev.len() && (#[trigger] prev[i]).kind == kind && prev[i].content == m[kind]
                        && forall|j: int| 0 <= j < prev.len() && j != i ==> prev[j].kind != kind;
                assert(c[i] == prev[i]);
                assert forall|j: int| 0 <= j < c.len() && j != i implies c[j].kind != kind by {
                    if j < prev.len() {
                        assert(c[j] == prev[j]);
                    }
                }
            }
            if !(m.contains_key(kind) && in_t) {
                assert forall|j: int| 0 <= j < c.len() implies (#[trigger] c[j]).kind != kind by {
                    if j < prev.len() {
                        assert(c[j] == prev[j]);
                    }
                }
            }
        }
    }
}

} // verus!
