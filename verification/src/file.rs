use vstd::prelude::*;

verus! {

/// A ROM in the launch history: when it was last launched (a timestamp, larger is
/// later), its name, its path, and how many times it was launched.
pub struct PlayedRom {
    pub last_launched: i64,
    pub rom_name: String,
    pub rom_path: String,
    pub launch_count: u32,
}

/// The index of the first entry of `history` with path `path`, if any.
pub open spec fn first_with_path(history: Seq<PlayedRom>, path: Seq<char>) -> Option<int>
    decreases history.len(),
{
    if history.len() == 0 {
        None
    } else if history[0].rom_path@ == path {
        Some(0)
    } else {
        match first_with_path(history.drop_first(), path) {
            Some(i) => Some(i + 1),
            None => None,
        }
    }
}

/// The number of leading entries of `sorted` launched at `key` or later: where an
/// entry launched at `key` goes, after those with the same time.
pub open spec fn insert_pos(sorted: Seq<PlayedRom>, key: i64) -> int
    decreases sorted.len(),
{
    if sorted.len() == 0 {
        0
    } else if sorted[0].last_launched >= key {
        1 + insert_pos(sorted.drop_first(), key)
    } else {
        0
    }
}

/// `history` sorted from the latest launch to the oldest; entries launched at the same
/// time keep their order.
pub open spec fn sort_by_recency(history: Seq<PlayedRom>) -> Seq<PlayedRom>
    decreases history.len(),
{
    if history.len() == 0 {
        Seq::empty()
    } else {
        let sorted = sort_by_recency(history.drop_last());
        sorted.insert(insert_pos(sorted, history.last().last_launched), history.last())
    }
}

/// Whether the entries go from the latest launch to the oldest.
pub open spec fn is_by_recency(history: Seq<PlayedRom>) -> bool {
    forall|i: int, j: int| 0 <= i < j < history.len() ==> history[i].last_launched >= history[j].last_launched
}

proof fn lemma_insert_pos_bounds(sorted: Seq<PlayedRom>, key: i64)
    requires
        is_by_recency(sorted),
    ensures
        0 <= insert_pos(sorted, key) <= sorted.len(),
        forall|i: int| 0 <= i < insert_pos(sorted, key) ==> sorted[i].last_launched >= key,
        forall|i: int| insert_pos(sorted, key) <= i < sorted.len() ==> sorted[i].last_launched < key,
    decreases sorted.len(),
{
    if sorted.len() > 0 {
        let tail = sorted.drop_first();
        assert forall|i: int, j: int| 0 <= i < j < tail.len() implies tail[i].last_launched >= tail[j].last_launched by {
            assert(tail[i] == sorted[i + 1] && tail[j] == sorted[j + 1]);
        }
        lemma_insert_pos_bounds(tail, key);
        if sorted[0].last_launched >= key {
            assert forall|i: int| 0 <= i < insert_pos(sorted, key) implies sorted[i].last_launched >= key by {
                if i > 0 {
                    assert(sorted[i] == tail[i - 1]);
                }
            }
            assert forall|i: int| insert_pos(sorted, key) <= i < sorted.len() implies sorted[i].last_launched < key by {
                assert(sorted[i] == tail[i - 1]);
            }
        } else {
            assert forall|i: int| 0 <= i < sorted.len() implies sorted[i].last_launched < key by {
                if i > 0 {
                    assert(sorted[0].last_launched >= sorted[i].last_launched);
                }
            }
        }
    }
}

/// The sorted history goes from the latest launch to the oldest and holds as many
/// entries as the history.
pub proof fn lemma_sort_by_recency(history: Seq<PlayedRom>)
    ensures
        is_by_recency(sort_by_recency(history)),
        sort_by_recency(history).len() == history.len(),
    decreases history.len(),
{
    if history.len() > 0 {
        let sorted = sort_by_recency(history.drop_last());
        lemma_sort_by_recency(history.drop_last());
        let x = history.last();
        lemma_insert_pos_bounds(sorted, x.last_launched);
        let p = insert_pos(sorted, x.last_launched);
        let r = sorted.insert(p, x);
        assert forall|i: int, j: int| 0 <= i < j < r.len() implies r[i].last_launched >= r[j].last_launched by {
            if i < p && j < p {
                assert(r[i] == sorted[i] && r[j] == sorted[j]);
            } else if i < p && j == p {
            } else if i < p && j > p {
                assert(r[j] == sorted[j - 1]);
            } else if i == p {
                assert(r[j] == sorted[j - 1]);
            } else {
                assert(r[i] == sorted[i - 1] && r[j] == sorted[j - 1]);
            }
        }
    }
}

/// The history after a launch of `rom_path` at `now`, before sorting: the first entry
/// with that path gets the new time and one more launch, or a new entry is added.
pub open spec fn history_with_launch(history: Seq<PlayedRom>, rom_name: String, rom_path: String, now: i64) -> Seq<
    PlayedRom,
> {
    match first_with_path(history, rom_path@) {
        Some(i) => history.update(
            i,
            PlayedRom { last_launched: now, launch_count: (history[i].launch_count + 1) as u32, ..history[i] },
        ),
        None => history.push(PlayedRom { last_launched: now, rom_name: rom_name, rom_path: rom_path, launch_count: 1 }),
    }
}

/// Whether the launch count of the entry a launch of `path` updates can grow.
pub open spec fn launch_count_can_grow(history: Seq<PlayedRom>, path: Seq<char>) -> bool {
    match first_with_path(history, path) {
        Some(i) => history[i].launch_count < u32::MAX,
        None => true,
    }
}

proof fn lemma_first_with_path(history: Seq<PlayedRom>, path: Seq<char>, k: int)
    requires
        0 <= k < history.len(),
        forall|j: int| 0 <= j < k ==> history[j].rom_path@ != path,
    ensures
        first_with_path(history, path) == (if history[k].rom_path@ == path {
            Some(k)
        } else {
            match first_with_path(history.skip(k + 1), path) {
                Some(i) => Some(i + k + 1),
                None => None,
            }
        }),
    decreases k,
{
    if k > 0 {
        lemma_first_with_path(history.drop_first(), path, k - 1);
        assert(history.drop_first().skip(k) =~= history.skip(k + 1));
    }
}

proof fn lemma_first_with_path_in_range(history: Seq<PlayedRom>, path: Seq<char>)
    ensures
        match first_with_path(history, path) {
            Some(i) => 0 <= i < history.len() && history[i].rom_path@ == path,
            None => true,
        },
    decreases history.len(),
{
    if history.len() > 0 {
        lemma_first_with_path_in_range(history.drop_first(), path);
    }
}

proof fn lemma_insert_pos_step(sorted: Seq<PlayedRom>, key: i64, k: int)
    requires
        0 <= k < sorted.len(),
        sorted[k].last_launched >= key,
    ensures
        insert_pos(sorted.skip(k), key) == 1 + insert_pos(sorted.skip(k + 1), key),
{
    assert(sorted.skip(k).drop_first() =~= sorted.skip(k + 1));
}

/// The index of the first entry with path `rom_path`, if any.
fn find_path(history: &Vec<PlayedRom>, rom_path: &String) -> (r: Option<usize>)
    ensures
        match r {
            Some(i) => first_with_path(history@, rom_path@) == Some(i as int),
            None => first_with_path(history@, rom_path@) is None,
        },
{
    let mut k: usize = 0;
    while k < history.len()
        invariant
            k <= history@.len(),
            forall|j: int| 0 <= j < k ==> history@[j].rom_path@ != rom_path@,
        decreases history.len() - k,
    {
        proof {
            lemma_first_with_path(history@, rom_path@, k as int);
        }
        if history[k].rom_path.eq(rom_path) {
            return Some(k);
        }
        k = k + 1;
    }
    proof {
        lemma_no_path(history@, rom_path@);
    }
    None
}

proof fn lemma_no_path(history: Seq<PlayedRom>, path: Seq<char>)
    requires
        forall|j: int| 0 <= j < history.len() ==> history[j].rom_path@ != path,
    ensures
        first_with_path(history, path) is None,
    decreases history.len(),
{
    if history.len() > 0 {
        lemma_no_path(history.drop_first(), path);
    }
}

/// The entries of `history` sorted from the latest launch to the oldest, keeping the
/// order of entries launched at the same time.
fn sorted_by_recency(history: Vec<PlayedRom>) -> (r: Vec<PlayedRom>)
    ensures
        r@ == sort_by_recency(history@),
{
    let mut rest = history;
    let ghost all = rest@;
    let mut sorted: Vec<PlayedRom> = Vec::new();
    let mut i: usize = 0;
    let n = rest.len();
    while rest.len() > 0
        invariant
            rest@ == all.skip(i as int),
            n == all.len(),
            i <= n,
            sorted@ == sort_by_recency(all.take(i as int)),
        decreases rest.len(),
    {
        let entry = rest.remove(0);
        let key = entry.last_launched;
        let mut k: usize = 0;
        assert(sorted@.skip(0) =~= sorted@);
        while k < sorted.len() && sorted[k].last_launched >= key
            invariant
                k <= sorted@.len(),
                insert_pos(sorted@, key) == k + insert_pos(sorted@.skip(k as int), key),
            decreases sorted.len() - k,
        {
            proof {
                lemma_insert_pos_step(sorted@, key, k as int);
            }
            k = k + 1;
        }
        proof {
            assert(insert_pos(sorted@.skip(k as int), key) == 0);
            assert(all.take(i + 1).drop_last() =~= all.take(i as int));
            assert(all.take(i + 1).last() == entry);
        }
        sorted.insert(k, entry);
        i = i + 1;
        proof {
            assert(rest@ =~= all.skip(i as int));
        }
    }
    proof {
        assert(all.take(i as int) =~= all);
    }
    sorted
}

/// Records a launch of `rom_path` at `now`: the entry of that path gets the new time
/// and one more launch (a new entry with one launch is added when there is none), and
/// the history is sorted from the latest launch to the oldest.
pub fn record_launch(history: &mut Vec<PlayedRom>, rom_name: String, rom_path: String, now: i64)
    requires
        launch_count_can_grow(old(history)@, rom_path@),
    ensures
        final(history)@ == sort_by_recency(history_with_launch(old(history)@, rom_name, rom_path, now)),
{
    proof {
        lemma_first_with_path_in_range(history@, rom_path@);
    }
    let ghost before = history@;
    let ghost path = rom_path@;
    let ghost name = rom_name;
    let ghost path_string = rom_path;
    match find_path(history, &rom_path) {
        Some(i) => {
            assert(first_with_path(before, path) == Some(i as int));
            assert(before[i as int].launch_count < u32::MAX);
            let mut entry = history.remove(i);
            entry.last_launched = now;
            entry.launch_count = entry.launch_count + 1;
            history.insert(i, entry);
            assert(history@ =~= history_with_launch(before, name, path_string, now));
        },
        None => {
            history.push(PlayedRom { last_launched: now, rom_name, rom_path, launch_count: 1 });
            assert(history@ =~= history_with_launch(before, name, path_string, now));
        },
    }
    let mut taken: Vec<PlayedRom> = Vec::new();
    std::mem::swap(history, &mut taken);
    let mut sorted = sorted_by_recency(taken);
    std::mem::swap(history, &mut sorted);
}

} // verus!
