//! History-based completion provider.

use vstd::prelude::*;
use crate::address::{ParsedUrl, url_parse};
use crate::completion::provider::{CompletionItem, CompletionType, CompletionView};
use crate::config::HISTORY_COMPLETION_LIMIT;
use crate::history::database::{EntryView, HistoryEntry};
use crate::ordering::{in_order, is_ordering, lemma_inserted_at, lemma_stably_sorted, stably_sorted};
use crate::text::{chars_of, lowercase, matches_at, starts_with, to_lowercase};

verus! {

/// A history entry to rank, with what the ranking has found out about it.
pub struct Candidate {
    /// Whether the host of the entry's URL starts with the query.
    pub host_prefix: bool,
    pub entry: HistoryEntry,
}

/// What a `Candidate` stands for in contracts.
pub struct CandidateView {
    pub host_prefix: bool,
    pub entry: EntryView,
}

impl View for Candidate {
    type V = CandidateView;

    open spec fn view(&self) -> CandidateView {
        CandidateView { host_prefix: self.host_prefix, entry: self.entry@ }
    }
}

/// The views of `candidates`, in order.
pub open spec fn candidate_views(candidates: Seq<Candidate>) -> Seq<CandidateView> {
    Seq::new(candidates.len(), |i: int| candidates[i]@)
}

/// Whether `a` is the better completion than `b`: a host that starts with
/// the query wins, then the higher visit count, then the later visit.
pub open spec fn ranks_before(a: CandidateView, b: CandidateView) -> bool {
    if a.host_prefix != b.host_prefix {
        a.host_prefix
    } else if a.entry.visit_count != b.entry.visit_count {
        a.entry.visit_count > b.entry.visit_count
    } else {
        a.entry.last_visit_time > b.entry.last_visit_time
    }
}

/// `ranks_before` as an ordering.
pub open spec fn by_rank() -> spec_fn(CandidateView, CandidateView) -> bool {
    |a: CandidateView, b: CandidateView| ranks_before(a, b)
}

/// `candidates` with the better ones first; of two that are equally good the
/// one that came first stays first.
pub open spec fn ranked(candidates: Seq<CandidateView>) -> Seq<CandidateView> {
    stably_sorted(candidates, by_rank())
}

/// The completion item of a history entry: it shows the title, or the URL
/// where the entry has no title.
pub open spec fn item_of(entry: EntryView) -> CompletionView {
    CompletionView {
        completion_type: CompletionType::History,
        title: match entry.title {
            Some(t) => t,
            None => entry.url,
        },
        url: Some(entry.url),
        visit_count: entry.visit_count as u32,
    }
}

/// The best of `candidates` as completion items, best first: as many as the
/// limit allows.
pub open spec fn best_items(candidates: Seq<CandidateView>) -> Seq<CompletionView> {
    let all = ranked(candidates);
    Seq::new(
        if all.len() > HISTORY_COMPLETION_LIMIT {
            HISTORY_COMPLETION_LIMIT as nat
        } else {
            all.len()
        },
        |i: int| item_of(all[i].entry),
    )
}

/// Ranking orders the candidates, best first, and neither drops nor adds
/// one.
pub proof fn lemma_ranked(candidates: Seq<CandidateView>)
    ensures
        in_order(ranked(candidates), by_rank()),
        ranked(candidates).to_multiset() == candidates.to_multiset(),
        ranked(candidates).len() == candidates.len(),
{
    assert(is_ordering(by_rank()));
    lemma_stably_sorted(candidates, by_rank());
}

fn ranks_first(a: &Candidate, b: &Candidate) -> (before: bool)
    ensures
        before == ranks_before(a@, b@),
{
    if a.host_prefix != b.host_prefix {
        a.host_prefix
    } else if a.entry.visit_count != b.entry.visit_count {
        a.entry.visit_count > b.entry.visit_count
    } else {
        a.entry.last_visit_time > b.entry.last_visit_time
    }
}

/// The completions for the history entries `candidates`, each with the
/// finding whether its host starts with the query: the best first, up to the
/// limit.
pub fn rank_history(candidates: Vec<Candidate>) -> (items: Vec<CompletionItem>)
    ensures
        crate::completion::provider::completion_views(items@) == best_items(
            candidate_views(candidates@),
        ),
{
    let ghost all = candidate_views(candidates@);
    let mut sorted: Vec<Candidate> = Vec::new();
    let mut i: usize = 0;
    assert(all.take(0) =~= Seq::<CandidateView>::empty());
    assert(candidate_views(sorted@) =~= Seq::<CandidateView>::empty());
    while i < candidates.len()
        invariant
            i <= candidates@.len(),
            candidate_views(candidates@) == all,
            candidate_views(sorted@) == ranked(all.take(i as int)),
        decreases candidates@.len() - i,
    {
        let next = Candidate { host_prefix: candidates[i].host_prefix, entry: candidates[i].entry.clone() };
        assert(next@ == all[i as int]);
        let mut at: usize = sorted.len();
        while at > 0 && ranks_first(&next, &sorted[at - 1])
            invariant
                at <= sorted@.len(),
                forall|j: int|
                    at <= j < sorted@.len() ==> ranks_before(next@, candidate_views(sorted@)[j]),
            decreases at,
        {
            at -= 1;
        }
        proof {
            lemma_inserted_at(candidate_views(sorted@), next@, by_rank(), at as int);
            assert(all.take(i + 1).drop_last() =~= all.take(i as int));
        }
        let ghost before = candidate_views(sorted@);
        sorted.insert(at, next);
        assert(candidate_views(sorted@) =~= before.insert(at as int, next@));
        i += 1;
    }
    assert(all.take(i as int) =~= all);
    let count = if sorted.len() > HISTORY_COMPLETION_LIMIT {
        HISTORY_COMPLETION_LIMIT
    } else {
        sorted.len()
    };
    let mut items: Vec<CompletionItem> = Vec::new();
    let mut k: usize = 0;
    while k < count
        invariant
            k <= count <= sorted@.len(),
            items@.len() == k,
            forall|j: int| 0 <= j < k ==> items@[j]@ == item_of(sorted@[j]@.entry),
        decreases count - k,
    {
        let entry = &sorted[k].entry;
        let title = match &entry.title {
            Some(t) => t.clone(),
            None => entry.url.clone(),
        };
        items.push(CompletionItem::from_history(title, entry.url.clone(), entry.visit_count as u32));
        k += 1;
    }
    assert(crate::completion::provider::completion_views(items@) =~= best_items(all));
    items
}

/// The text `www.`, which is not counted as part of a host.
pub open spec fn www_prefix() -> Seq<char> {
    seq!['w', 'w', 'w', '.']
}

/// `host` without a leading `www.`.
pub open spec fn without_www(host: Seq<char>) -> Seq<char> {
    if matches_at(host, www_prefix(), 0) {
        host.skip(4)
    } else {
        host
    }
}

/// Whether the host of the URL `url`, without a leading `www.` and in lower
/// case, starts with `prefix`. A text that is no URL, or a URL without a
/// host, does not.
pub open spec fn host_starts_with(url: Seq<char>, prefix: Seq<char>) -> bool {
    match url_parse(url) {
        Some(u) => match u.host {
            Some(host) => matches_at(lowercase(without_www(host)), prefix, 0),
            None => false,
        },
        None => false,
    }
}

/// `host` without a leading `www.`.
pub fn strip_www(host: &str) -> (stripped: String)
    ensures
        stripped@ == without_www(host@),
{
    let chars = chars_of(host);
    let mut www: Vec<char> = Vec::new();
    www.push('w');
    www.push('w');
    www.push('w');
    www.push('.');
    assert(www@ =~= www_prefix());
    if starts_with(&chars, &www) {
        let stripped = crate::text::string_of_range(&chars, 4, chars.len());
        assert(chars@.subrange(4, chars@.len() as int) =~= chars@.skip(4));
        stripped
    } else {
        host.to_owned()
    }
}

/// Check if a URL's host starts with the given prefix.
pub fn url_host_starts_with(url: &str, prefix: &str) -> (starts: bool)
    ensures
        starts == host_starts_with(url@, prefix@),
{
    match ParsedUrl::parse(url) {
        Ok(parsed) => match parsed.host_str() {
            Some(host) => {
                let clean = strip_www(host);
                let lowered = to_lowercase(clean.as_str());
                starts_with(&chars_of(lowered.as_str()), &chars_of(prefix))
            },
            None => false,
        },
        Err(_) => false,
    }
}

/// The candidates that `entries` make for the query `query_lower`.
pub open spec fn candidates_for(entries: Seq<EntryView>, query_lower: Seq<char>) -> Seq<
    CandidateView,
> {
    Seq::new(
        entries.len(),
        |i: int|
            CandidateView {
                host_prefix: host_starts_with(entries[i].url, query_lower),
                entry: entries[i],
            },
    )
}

/// The views of `entries`, in order.
pub open spec fn entry_views(entries: Seq<HistoryEntry>) -> Seq<EntryView> {
    Seq::new(entries.len(), |i: int| entries[i]@)
}

/// Provide completions from browsing history: `found` is what the history
/// holds for `query`. Results are sorted by relevance:
/// 1. URLs whose host starts with the query (e.g., "goo" matches
///    "google.com")
/// 2. Higher visit count
/// 3. More recent visits
/// An empty query has no completions.
pub fn get_history_completions(found: Vec<HistoryEntry>, query: &str) -> (items: Vec<
    CompletionItem,
>)
    ensures
        crate::completion::provider::completion_views(items@) == if query@.len() == 0 {
            Seq::empty()
        } else {
            best_items(candidates_for(entry_views(found@), lowercase(query@)))
        },
{
    if chars_of(query).len() == 0 {
        let items: Vec<CompletionItem> = Vec::new();
        assert(crate::completion::provider::completion_views(items@) =~= Seq::empty());
        return items;
    }
    let query_lower = to_lowercase(query);
    let mut candidates: Vec<Candidate> = Vec::new();
    let mut i: usize = 0;
    while i < found.len()
        invariant
            i <= found@.len(),
            query_lower@ == lowercase(query@),
            candidates@.len() == i,
            forall|j: int|
                0 <= j < i ==> candidates@[j]@ == candidates_for(
                    entry_views(found@),
                    lowercase(query@),
                )[j],
        decreases found@.len() - i,
    {
        let host_prefix = url_host_starts_with(found[i].url.as_str(), query_lower.as_str());
        candidates.push(Candidate { host_prefix, entry: found[i].clone() });
        i += 1;
    }
    assert(candidate_views(candidates@) =~= candidates_for(
        entry_views(found@),
        lowercase(query@),
    ));
    rank_history(candidates)
}

} // verus!
