//! Torrent records as the remote client reports them, the (category, state)
//! label that each one is counted under, and the count of torrents per label.
use vstd::prelude::*;

verus! {

/// The category label of a torrent that has no category.
pub const DEFAULT_CATEGORY: &'static str = "<None>";

/// The lifecycle state of a torrent, as the remote client names it.
#[derive(Clone, Copy, Debug, PartialEq, Eq, Structural)]
pub enum TorrentState {
    Error,
    MissingFiles,
    Uploading,
    PausedUP,
    QueuedUP,
    StalledUP,
    CheckingUP,
    ForcedUP,
    Allocating,
    Downloading,
    MetaDL,
    PausedDL,
    QueuedDL,
    StalledDL,
    CheckingDL,
    ForcedDL,
    CheckingResumeData,
    Moving,
    Unknown,
}

impl TorrentState {
    /// The label text of a state: the variant's own name.
    pub open spec fn spec_name(self) -> Seq<char> {
        match self {
            TorrentState::Error => "Error"@,
            TorrentState::MissingFiles => "MissingFiles"@,
            TorrentState::Uploading => "Uploading"@,
            TorrentState::PausedUP => "PausedUP"@,
            TorrentState::QueuedUP => "QueuedUP"@,
            TorrentState::StalledUP => "StalledUP"@,
            TorrentState::CheckingUP => "CheckingUP"@,
            TorrentState::ForcedUP => "ForcedUP"@,
            TorrentState::Allocating => "Allocating"@,
            TorrentState::Downloading => "Downloading"@,
            TorrentState::MetaDL => "MetaDL"@,
            TorrentState::PausedDL => "PausedDL"@,
            TorrentState::QueuedDL => "QueuedDL"@,
            TorrentState::StalledDL => "StalledDL"@,
            TorrentState::CheckingDL => "CheckingDL"@,
            TorrentState::ForcedDL => "ForcedDL"@,
            TorrentState::CheckingResumeData => "CheckingResumeData"@,
            TorrentState::Moving => "Moving"@,
            TorrentState::Unknown => "Unknown"@,
        }
    }

    pub fn name(&self) -> (r: String)
        ensures
            r@ == self.spec_name(),
    {
        match self {
            TorrentState::Error => "Error".to_owned(),
            TorrentState::MissingFiles => "MissingFiles".to_owned(),
            TorrentState::Uploading => "Uploading".to_owned(),
            TorrentState::PausedUP => "PausedUP".to_owned(),
            TorrentState::QueuedUP => "QueuedUP".to_owned(),
            TorrentState::StalledUP => "StalledUP".to_owned(),
            TorrentState::CheckingUP => "CheckingUP".to_owned(),
            TorrentState::ForcedUP => "ForcedUP".to_owned(),
            TorrentState::Allocating => "Allocating".to_owned(),
            TorrentState::Downloading => "Downloading".to_owned(),
            TorrentState::MetaDL => "MetaDL".to_owned(),
            TorrentState::PausedDL => "PausedDL".to_owned(),
            TorrentState::QueuedDL => "QueuedDL".to_owned(),
            TorrentState::StalledDL => "StalledDL".to_owned(),
            TorrentState::CheckingDL => "CheckingDL".to_owned(),
            TorrentState::ForcedDL => "ForcedDL".to_owned(),
            TorrentState::CheckingResumeData => "CheckingResumeData".to_owned(),
            TorrentState::Moving => "Moving".to_owned(),
            TorrentState::Unknown => "Unknown".to_owned(),
        }
    }
}

/// One entry of the remote torrent list: only what the labels are made of.
pub struct TorrentRecord {
    pub category: Option<String>,
    pub state: Option<TorrentState>,
}

/// A (category, state) pair, the key of the per-category torrent gauges.
pub struct CategoryLabel {
    pub category: String,
    pub state: String,
}

/// A label as plain text: (category, state).
pub type LabelView = (Seq<char>, Seq<char>);

impl View for CategoryLabel {
    type V = LabelView;

    open spec fn view(&self) -> LabelView {
        (self.category@, self.state@)
    }
}

impl CategoryLabel {
    pub fn duplicate(&self) -> (r: CategoryLabel)
        ensures
            r@ == self@,
    {
        CategoryLabel { category: self.category.clone(), state: self.state.clone() }
    }

    pub fn same_as(&self, other: &CategoryLabel) -> (r: bool)
        ensures
            r == (self@ == other@),
    {
        self.category == other.category && self.state == other.state
    }
}

/// The category label of a record: its category, or the default one.
pub open spec fn category_label(t: TorrentRecord) -> Seq<char> {
    match t.category {
        Some(c) => c@,
        None => DEFAULT_CATEGORY@,
    }
}

/// The state label of a record: the name of its state, "Unknown" where it has none.
pub open spec fn state_label(t: TorrentRecord) -> Seq<char> {
    match t.state {
        Some(s) => s.spec_name(),
        None => TorrentState::Unknown.spec_name(),
    }
}

pub open spec fn record_label(t: TorrentRecord) -> LabelView {
    (category_label(t), state_label(t))
}

/// The label of each record of a list, in order.
pub open spec fn labels_of(ts: Seq<TorrentRecord>) -> Seq<LabelView> {
    ts.map_values(|t: TorrentRecord| record_label(t))
}

/// How many times `l` occurs in `s`.
pub open spec fn occurrences(s: Seq<LabelView>, l: LabelView) -> nat
    decreases s.len(),
{
    if s.len() == 0 {
        0
    } else {
        occurrences(s.drop_last(), l) + if s.last() == l { 1nat } else { 0nat }
    }
}

/// The number of records under each label that occurs, and no other label.
pub open spec fn tally(s: Seq<LabelView>) -> Map<LabelView, int> {
    Map::new(|l: LabelView| s.contains(l), |l: LabelView| occurrences(s, l) as int)
}

/// The sum of the counts of a list of (label, count) entries.
pub open spec fn sum_counts(e: Seq<(CategoryLabel, usize)>) -> int
    decreases e.len(),
{
    if e.len() == 0 {
        0
    } else {
        sum_counts(e.drop_last()) + e.last().1
    }
}

/// The label that a record is counted under.
pub fn extract_labels(torrent: &TorrentRecord) -> (r: CategoryLabel)
    ensures
        r@ == record_label(*torrent),
{
    let category = match &torrent.category {
        Some(c) => c.clone(),
        None => DEFAULT_CATEGORY.to_owned(),
    };
    let state = match &torrent.state {
        Some(s) => s.name(),
        None => TorrentState::Unknown.name(),
    };
    CategoryLabel { category, state }
}


proof fn lemma_occurrences_push(s: Seq<LabelView>, x: LabelView, l: LabelView)
    ensures
        occurrences(s.push(x), l) == occurrences(s, l) + if x == l { 1nat } else { 0nat },
{
    assert(s.push(x).drop_last() =~= s);
}

/// A label occurs at most as many times as the list is long.
pub proof fn lemma_occurrences_bounded(s: Seq<LabelView>, l: LabelView)
    ensures
        occurrences(s, l) <= s.len(),
    decreases s.len(),
{
    if s.len() > 0 {
        lemma_occurrences_bounded(s.drop_last(), l);
    }
}

/// A label occurs a positive number of times exactly where the list holds it.
pub proof fn lemma_occurs_iff_contains(s: Seq<LabelView>, l: LabelView)
    ensures
        (occurrences(s, l) > 0) == s.contains(l),
    decreases s.len(),
{
    broadcast use vstd::seq_lib::lemma_seq_contains_after_push;

    if s.len() > 0 {
        lemma_occurs_iff_contains(s.drop_last(), l);
        assert(s =~= s.drop_last().push(s.last()));
    }
}

proof fn lemma_sum_push(e: Seq<(CategoryLabel, usize)>, x: (CategoryLabel, usize))
    ensures
        sum_counts(e.push(x)) == sum_counts(e) + x.1,
{
    assert(e.push(x).drop_last() =~= e);
}

proof fn lemma_sum_update(e: Seq<(CategoryLabel, usize)>, j: int, x: (CategoryLabel, usize))
    requires
        0 <= j < e.len(),
    ensures
        sum_counts(e.update(j, x)) == sum_counts(e) - e[j].1 + x.1,
    decreases e.len(),
{
    if j == e.len() - 1 {
        assert(e.update(j, x).drop_last() =~= e.drop_last());
    } else {
        assert(e.update(j, x).drop_last() =~= e.drop_last().update(j, x));
        lemma_sum_update(e.drop_last(), j, x);
    }
}

/// The index of the entry whose label is `label`, if there is one.
fn find_label(entries: &Vec<(CategoryLabel, usize)>, label: &CategoryLabel) -> (r: Option<usize>)
    ensures
        match r {
            Some(j) => j < entries.len() && entries[j as int].0@ == label@,
            None => forall|k: int| 0 <= k < entries.len() ==> entries[k].0@ != label@,
        },
{
    let mut j: usize = 0;
    while j < entries.len()
        invariant
            j <= entries.len(),
            forall|k: int| 0 <= k < j ==> entries[k].0@ != label@,
        decreases entries.len() - j,
    {
        if entries[j].0.same_as(label) {
            return Some(j);
        }
        j = j + 1;
    }
    None
}

/// Counts the torrents of a list under each (category, state) label.
///
/// Each label that some record has appears once, with the number of records
/// that have it; no other label appears, and the counts add up to the length
/// of the list.
pub fn aggregate(torrents: &Vec<TorrentRecord>) -> (r: Vec<(CategoryLabel, usize)>)
    ensures
        forall|a: int, b: int| 0 <= a < b < r.len() ==> r[a].0@ != r[b].0@,
        forall|k: int|
            0 <= k < r.len() ==> r[k].1 == occurrences(labels_of(torrents@), r[k].0@)
                && labels_of(torrents@).contains(r[k].0@),
        forall|l: LabelView|
            labels_of(torrents@).contains(l) ==> exists|k: int| 0 <= k < r.len() && r[k].0@ == l,
        sum_counts(r@) == torrents@.len(),
{
    broadcast use vstd::seq_lib::lemma_seq_contains_after_push;

    let ghost all = labels_of(torrents@);
    let mut entries: Vec<(CategoryLabel, usize)> = Vec::new();
    let n = torrents.len();
    let mut i: usize = 0;
    while i < n
        invariant
            n == torrents.len(),
            i <= n,
            all == labels_of(torrents@),
            forall|a: int, b: int| 0 <= a < b < entries.len() ==> entries[a].0@ != entries[b].0@,
            forall|k: int|
                0 <= k < entries.len() ==> entries[k].1 == occurrences(all.take(i as int), entries[k].0@)
                    && all.take(i as int).contains(entries[k].0@),
            forall|l: LabelView|
                all.take(i as int).contains(l) ==> exists|k: int|
                    0 <= k < entries.len() && entries[k].0@ == l,
            forall|k: int| 0 <= k < entries.len() ==> entries[k].1 <= i,
            sum_counts(entries@) == i,
        decreases n - i,
    {
        let label = extract_labels(&torrents[i]);
        let ghost s = all.take(i as int);
        let ghost s2 = all.take(i as int + 1);
        let ghost old_entries = entries@;
        proof {
            assert(s2 =~= s.push(label@));
        }
        match find_label(&entries, &label) {
            Some(j) => {
                let c = entries[j].1;
                let kept = entries[j].0.duplicate();
                entries.set(j, (kept, c + 1));
                proof {
                    lemma_sum_update(old_entries, j as int, (kept, (c + 1) as usize));
                    assert forall|k: int| 0 <= k < entries.len() implies entries[k].1 == occurrences(
                        s2,
                        entries[k].0@,
                    ) && s2.contains(entries[k].0@) by {
                        lemma_occurrences_push(s, label@, entries[k].0@);
                    }
                    assert forall|l: LabelView| s2.contains(l) implies exists|k: int|
                        0 <= k < entries.len() && entries[k].0@ == l by {
                        if l != label@ {
                            assert(s.push(label@).contains(l));
                            assert(s.contains(l));
                            let k = choose|k: int| 0 <= k < old_entries.len() && old_entries[k].0@ == l;
                            assert(entries[k].0@ == l);
                        } else {
                            assert(entries[j as int].0@ == l);
                        }
                    }
                }
            },
            None => {
                proof {
                    if s.contains(label@) {
                        let k = choose|k: int| 0 <= k < old_entries.len() && old_entries[k].0@ == label@;
                    }
                    lemma_occurs_iff_contains(s, label@);
                    lemma_sum_push(old_entries, (label, 1usize));
                }
                entries.push((label, 1));
                proof {
                    assert forall|k: int| 0 <= k < entries.len() implies entries[k].1 == occurrences(
                        s2,
                        entries[k].0@,
                    ) && s2.contains(entries[k].0@) by {
                        lemma_occurrences_push(s, label@, entries[k].0@);
                    }
                    assert forall|l: LabelView| s2.contains(l) implies exists|k: int|
                        0 <= k < entries.len() && entries[k].0@ == l by {
                        if l != label@ {
                            assert(s.push(label@).contains(l));
                            assert(s.contains(l));
                            let k = choose|k: int| 0 <= k < old_entries.len() && old_entries[k].0@ == l;
                            assert(entries[k].0@ == l);
                        } else {
                            assert(entries[old_entries.len() as int].0@ == l);
                        }
                    }
                }
            },
        }
        i = i + 1;
    }
    proof {
        assert(all.take(n as int) =~= all);
    }
    entries
}

} // verus!
