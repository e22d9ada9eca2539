use vstd::prelude::*;

verus! {

/// The map editor's tools.
#[derive(Clone, Copy, Debug, PartialEq, Eq, Structural)]
pub enum EditorTool {
    Select,
    Objects,
    Biomes,
}

/// The tool Tab switches to: objects, then biomes, then selection, then
/// objects again.
pub fn next_tool(tool: EditorTool) -> (t: EditorTool)
    ensures
        t == (match tool {
            EditorTool::Objects => EditorTool::Biomes,
            EditorTool::Biomes => EditorTool::Select,
            EditorTool::Select => EditorTool::Objects,
        }),
{
    match tool {
        EditorTool::Objects => EditorTool::Biomes,
        EditorTool::Biomes => EditorTool::Select,
        EditorTool::Select => EditorTool::Objects,
    }
}

/// The entry after `index` in a list of `len` entries, wrapping around;
/// `index` itself when the list is empty.
pub open spec fn spec_cycle_next(index: int, len: int) -> int {
    if len == 0 {
        index
    } else {
        (index + 1) % len
    }
}

/// The entry before `index` in a list of `len` entries, wrapping around;
/// `index` itself when the list is empty.
pub open spec fn spec_cycle_prev(index: int, len: int) -> int {
    if len == 0 {
        index
    } else {
        (index + len - 1) % len
    }
}

/// Steps a catalog index forward, as the editor's next-model key does.
pub fn cycle_next(index: usize, len: usize) -> (n: usize)
    requires
        len == 0 || index < len,
    ensures
        n == spec_cycle_next(index as int, len as int),
{
    if len == 0 {
        index
    } else if index + 1 == len {
        proof {
            vstd::arithmetic::div_mod::lemma_mod_self_0(len as int);
        }
        0
    } else {
        proof {
            vstd::arithmetic::div_mod::lemma_small_mod((index + 1) as nat, len as nat);
        }
        index + 1
    }
}

/// Steps a catalog index back, as the editor's previous-model key does.
pub fn cycle_prev(index: usize, len: usize) -> (n: usize)
    requires
        len == 0 || index < len,
    ensures
        n == spec_cycle_prev(index as int, len as int),
{
    if len == 0 {
        index
    } else if index == 0 {
        proof {
            vstd::arithmetic::div_mod::lemma_mod_self_0(len as int);
            assert((len - 1) as int % (len as int) == len - 1) by {
                vstd::arithmetic::div_mod::lemma_small_mod((len - 1) as nat, len as nat);
            }
        }
        len - 1
    } else {
        proof {
            vstd::arithmetic::div_mod::lemma_mod_add_multiples_vanish(index - 1, len as int);
            vstd::arithmetic::div_mod::lemma_small_mod((index - 1) as nat, len as nat);
        }
        index - 1
    }
}

/// Stepping back undoes stepping forward, and stepping forward undoes
/// stepping back, for every index of a non-empty list.
pub proof fn lemma_cycle_roundtrip(index: int, len: int)
    requires
        0 <= index < len,
    ensures
        spec_cycle_prev(spec_cycle_next(index, len), len) == index,
        spec_cycle_next(spec_cycle_prev(index, len), len) == index,
{
    if index + 1 == len {
        vstd::arithmetic::div_mod::lemma_mod_self_0(len);
        vstd::arithmetic::div_mod::lemma_small_mod((len - 1) as nat, len as nat);
    } else {
        vstd::arithmetic::div_mod::lemma_small_mod((index + 1) as nat, len as nat);
        vstd::arithmetic::div_mod::lemma_mod_add_multiples_vanish(index, len);
        vstd::arithmetic::div_mod::lemma_small_mod(index as nat, len as nat);
    }
    if index == 0 {
        vstd::arithmetic::div_mod::lemma_small_mod((len - 1) as nat, len as nat);
        vstd::arithmetic::div_mod::lemma_mod_self_0(len);
    } else {
        vstd::arithmetic::div_mod::lemma_mod_add_multiples_vanish(index - 1, len);
        vstd::arithmetic::div_mod::lemma_small_mod((index - 1) as nat, len as nat);
        vstd::arithmetic::div_mod::lemma_small_mod(index as nat, len as nat);
    }
}

/// The position of the first occurrence of `r` in `selection`.
fn find_first(selection: &Vec<(usize, usize)>, r: (usize, usize)) -> (found: Option<usize>)
    ensures
        match found {
            Some(p) => p < selection.len() && selection@[p as int] == r && forall|j: int|
                0 <= j < p ==> selection@[j] != r,
            None => !selection@.contains(r),
        },
{
    let mut i: usize = 0;
    while i < selection.len()
        invariant
            i <= selection.len(),
            forall|j: int| 0 <= j < i ==> selection@[j] != r,
        decreases selection.len() - i,
    {
        let e = selection[i];
        if e.0 == r.0 && e.1 == r.1 {
            return Some(i);
        }
        i += 1;
    }
    None
}

/// The selection after a click on `hovered` (the placement under the
/// cursor, if any). A click on empty ground clears the selection. A click
/// with Shift held toggles the placement: its first occurrence leaves, or it
/// is appended. A plain click on a selected placement keeps the selection
/// (so that it can be dragged); on any other placement it selects just that
/// one.
pub open spec fn spec_click_selection(
    selection: Seq<(usize, usize)>,
    hovered: Option<(usize, usize)>,
    shift: bool,
) -> Seq<(usize, usize)> {
    match hovered {
        None => Seq::empty(),
        Some(h) => if shift {
            if selection.contains(h) {
                selection.remove_value(h)
            } else {
                selection.push(h)
            }
        } else if selection.contains(h) {
            selection
        } else {
            seq![h]
        },
    }
}

/// What a click does to the selection, over every selection: a click on
/// empty ground, with or without Shift, leaves nothing selected; a plain
/// click leaves the clicked placement selected, alone unless it was
/// already selected; a Shift click adds an unselected placement at the
/// end, takes a selected one out (when nothing is selected twice), and
/// leaves every other placement as it was.
pub proof fn lemma_click_select_laws(selection: Seq<(usize, usize)>, hovered: Option<(usize, usize)>, shift: bool)
    ensures
        hovered is None ==> spec_click_selection(selection, hovered, shift).len() == 0,
        hovered matches Some(h) ==> (!shift ==> spec_click_selection(selection, hovered, shift).contains(h)),
        hovered matches Some(h) ==> (!shift && !selection.contains(h) ==> spec_click_selection(selection, hovered, shift)
            == seq![h]),
        hovered matches Some(h) ==> (!shift && selection.contains(h) ==> spec_click_selection(selection, hovered, shift)
            == selection),
        hovered matches Some(h) ==> (shift && !selection.contains(h) ==> spec_click_selection(selection, hovered, shift)
            == selection.push(h)),
        hovered matches Some(h) ==> (shift && selection.no_duplicates() ==> (spec_click_selection(
            selection,
            hovered,
            shift,
        ).contains(h) <==> !selection.contains(h))),
        hovered matches Some(h) ==> (shift ==> forall|r: (usize, usize)|
            r != h ==> (#[trigger] spec_click_selection(selection, hovered, shift).contains(r) <==> selection.contains(r))),
{
    match hovered {
        None => {},
        Some(h) => {
            let after = spec_click_selection(selection, hovered, shift);
            if !shift {
                if !selection.contains(h) {
                    assert(after[0] == h);
                }
            } else if selection.contains(h) {
                selection.index_of_first_ensures(h);
                let p = selection.index_of_first(h).unwrap();
                assert(after == selection.remove(p));
                assert forall|r: (usize, usize)| r != h implies (#[trigger] after.contains(r) <==> selection.contains(r)) by {
                    if after.contains(r) {
                        let i = choose|i: int| 0 <= i < after.len() && after[i] == r;
                        if i < p {
                            assert(selection[i] == r);
                        } else {
                            assert(selection[i + 1] == r);
                        }
                    }
                    if selection.contains(r) {
                        let i = choose|i: int| 0 <= i < selection.len() && selection[i] == r;
                        assert(i != p);
                        if i < p {
                            assert(after[i] == r);
                        } else {
                            assert(after[i - 1] == r);
                        }
                    }
                }
                if selection.no_duplicates() {
                    if after.contains(h) {
                        let i = choose|i: int| 0 <= i < after.len() && after[i] == h;
                        if i < p {
                            assert(selection[i] == h);
                        } else {
                            assert(selection[i + 1] == h);
                        }
                    }
                }
            } else {
                let after2 = selection.push(h);
                assert(after2[selection.len() as int] == h);
                assert forall|r: (usize, usize)| r != h implies (#[trigger] after.contains(r) <==> selection.contains(r)) by {
                    if after.contains(r) {
                        let i = choose|i: int| 0 <= i < after.len() && after[i] == r;
                        assert(selection[i] == r);
                    }
                    if selection.contains(r) {
                        let i = choose|i: int| 0 <= i < selection.len() && selection[i] == r;
                        assert(after[i] == r);
                    }
                }
            }
        },
    }
}

/// Updates the selection for a click of the selection tool. A selection
/// without repeated placements never gets one.
pub fn click_select(selection: &mut Vec<(usize, usize)>, hovered: Option<(usize, usize)>, shift: bool)
    ensures
        final(selection)@ == spec_click_selection(old(selection)@, hovered, shift),
        old(selection)@.no_duplicates() ==> final(selection)@.no_duplicates(),
        hovered is None ==> final(selection)@.len() == 0,
        hovered matches Some(h) ==> (!shift ==> final(selection)@.contains(h)),
        hovered matches Some(h) ==> (!shift && !old(selection)@.contains(h) ==> final(selection)@ == seq![h]),
        hovered matches Some(h) ==> (!shift && old(selection)@.contains(h) ==> final(selection)@ == old(selection)@),
        hovered matches Some(h) ==> (shift && !old(selection)@.contains(h) ==> final(selection)@ == old(selection)@.push(h)),
        hovered matches Some(h) ==> (shift && old(selection)@.no_duplicates() ==> (final(selection)@.contains(h)
            <==> !old(selection)@.contains(h))),
        hovered matches Some(h) ==> (shift ==> forall|r: (usize, usize)|
            r != h ==> (#[trigger] final(selection)@.contains(r) <==> old(selection)@.contains(r))),
{
    proof {
        lemma_click_select_laws(old(selection)@, hovered, shift);
    }
    let ghost before = selection@;
    match hovered {
        None => {
            selection.clear();
            assert(selection@ =~= Seq::<(usize, usize)>::empty());
        },
        Some(h) => {
            let found = find_first(selection, h);
            match found {
                Some(p) => {
                    proof {
                        before.index_of_first_ensures(h);
                        let q = before.index_of_first(h).unwrap();
                        if q < p {
                            assert(before[q] != h);
                        } else if p < q {
                            assert(before[p as int] != h);
                        }
                        assert(before.contains(h));
                    }
                    if shift {
                        selection.remove(p);
                        proof {
                            let after = selection@;
                            assert(after == before.remove(p as int));
                            if before.no_duplicates() {
                                assert forall|i: int, j: int|
                                    0 <= i < after.len() && 0 <= j < after.len() && i != j implies
                                    #[trigger] after[i] != #[trigger] after[j] by {
                                    let bi = if i < p { i } else { i + 1 };
                                    let bj = if j < p { j } else { j + 1 };
                                    assert(after[i] == before[bi]);
                                    assert(after[j] == before[bj]);
                                }
                            }
                        }
                    }
                },
                None => {
                    if shift {
                        selection.push(h);
                        proof {
                            let after = selection@;
                            if before.no_duplicates() {
                                assert forall|i: int, j: int|
                                    0 <= i < after.len() && 0 <= j < after.len() && i != j implies
                                    #[trigger] after[i] != #[trigger] after[j] by {
                                    if i < before.len() && j < before.len() {
                                        assert(after[i] == before[i]);
                                        assert(after[j] == before[j]);
                                    } else if i < before.len() {
                                        assert(after[i] == before[i]);
                                    } else {
                                        assert(after[j] == before[j]);
                                    }
                                }
                            }
                        }
                    } else {
                        selection.clear();
                        selection.push(h);
                        assert(selection@ =~= seq![h]);
                    }
                },
            }
        },
    }
}

/// How often `selection` names placement `i` of cluster `cluster`.
pub open spec fn times_selected(selection: Seq<(usize, usize)>, cluster: usize, i: int) -> nat
    decreases selection.len(),
{
    if selection.len() == 0 {
        0
    } else {
        times_selected(selection.drop_last(), cluster, i) + if selection.last() == (cluster, i as usize) {
            1nat
        } else {
            0nat
        }
    }
}

/// `s` after removing index `i` up to `k` times, each time only while `i`
/// is still an index of what is left.
pub open spec fn remove_at_times<T>(s: Seq<T>, i: int, k: nat) -> Seq<T>
    decreases k,
{
    if k == 0 || i >= s.len() {
        s
    } else {
        remove_at_times(s.remove(i), i, (k - 1) as nat)
    }
}

/// One cluster's placements after the removals the selection names for
/// every index from `i` up, done from the highest index down, each index
/// as often as it is named.
pub open spec fn removed_from<T>(placements: Seq<T>, cluster: usize, selection: Seq<(usize, usize)>, i: int) -> Seq<T>
    decreases placements.len() - i,
{
    if i >= placements.len() {
        placements
    } else {
        remove_at_times(
            removed_from(placements, cluster, selection, i + 1),
            i,
            times_selected(selection, cluster, i),
        )
    }
}

/// One cluster's placements after deleting the selection from it.
pub open spec fn after_deletion<T>(placements: Seq<T>, cluster: usize, selection: Seq<(usize, usize)>) -> Seq<T> {
    removed_from(placements, cluster, selection, 0)
}

/// The placements of cluster `cluster` from index `i` on that the
/// selection does not name, in their order.
pub open spec fn unselected_from<T>(placements: Seq<T>, cluster: usize, selection: Seq<(usize, usize)>, i: int) -> Seq<T>
    decreases placements.len() - i,
{
    if i >= placements.len() {
        Seq::empty()
    } else if times_selected(selection, cluster, i) > 0 {
        unselected_from(placements, cluster, selection, i + 1)
    } else {
        seq![placements[i]] + unselected_from(placements, cluster, selection, i + 1)
    }
}

proof fn lemma_removed_from_prefix<T>(s: Seq<T>, cluster: usize, selection: Seq<(usize, usize)>, i: int)
    requires
        0 <= i <= s.len(),
        forall|j: int| 0 <= j < s.len() ==> #[trigger] times_selected(selection, cluster, j) <= 1,
    ensures
        removed_from(s, cluster, selection, i) == s.take(i) + unselected_from(s, cluster, selection, i),
    decreases s.len() - i,
{
    if i == s.len() {
        assert(s.take(i) + unselected_from(s, cluster, selection, i) =~= s);
    } else {
        lemma_removed_from_prefix(s, cluster, selection, i + 1);
        let r = removed_from(s, cluster, selection, i + 1);
        let u = unselected_from(s, cluster, selection, i + 1);
        assert(s.take(i + 1) =~= s.take(i).push(s[i]));
        if times_selected(selection, cluster, i) == 0 {
            assert(r =~= s.take(i) + (seq![s[i]] + u));
        } else {
            assert(r.remove(i) =~= s.take(i) + u);
            assert(remove_at_times(r.remove(i), i, 0) == r.remove(i));
        }
    }
}

/// When no placement of a cluster is named twice, deleting the selection
/// keeps exactly that cluster's unselected placements, in order.
pub proof fn lemma_deletion_keeps_unselected<T>(s: Seq<T>, cluster: usize, selection: Seq<(usize, usize)>)
    requires
        forall|j: int| 0 <= j < s.len() ==> #[trigger] times_selected(selection, cluster, j) <= 1,
    ensures
        after_deletion(s, cluster, selection) == unselected_from(s, cluster, selection, 0),
{
    lemma_removed_from_prefix(s, cluster, selection, 0);
    assert(s.take(0) + unselected_from(s, cluster, selection, 0) =~= unselected_from(s, cluster, selection, 0));
}

/// How often `selection` names placement `i` of cluster `cluster`.
fn count_selected(selection: &Vec<(usize, usize)>, cluster: usize, i: usize) -> (n: usize)
    ensures
        n == times_selected(selection@, cluster, i as int),
{
    let mut n: usize = 0;
    let mut j: usize = 0;
    assert(selection@.take(0) =~= Seq::<(usize, usize)>::empty());
    while j < selection.len()
        invariant
            j <= selection.len(),
            n <= j,
            n == times_selected(selection@.take(j as int), cluster, i as int),
        decreases selection.len() - j,
    {
        assert(selection@.take(j + 1).drop_last() =~= selection@.take(j as int));
        let e = selection[j];
        if e.0 == cluster && e.1 == i {
            n += 1;
        }
        j += 1;
    }
    assert(selection@.take(selection.len() as int) =~= selection@);
    n
}

/// Removes from one cluster's placements those the selection names, from
/// the highest index down so that earlier indices stay valid; an index is
/// removed as often as it is named, while it is still an index.
fn remove_selected_from<T>(placements: &mut Vec<T>, cluster: usize, selection: &Vec<(usize, usize)>)
    ensures
        final(placements)@ == after_deletion(old(placements)@, cluster, selection@),
{
    let ghost orig = placements@;
    let mut i: usize = placements.len();
    while i > 0
        invariant
            i <= orig.len(),
            placements@ == removed_from(orig, cluster, selection@, i as int),
        decreases i,
    {
        i -= 1;
        let k = count_selected(selection, cluster, i);
        let ghost t0 = placements@;
        let mut m: usize = 0;
        while m < k
            invariant
                m <= k,
                remove_at_times(placements@, i as int, (k - m) as nat) == remove_at_times(t0, i as int, k as nat),
            decreases k - m,
        {
            if i < placements.len() {
                placements.remove(i);
            }
            m += 1;
        }
    }
}

/// Deletes every selected placement (named by cluster and index) from the
/// clusters and clears the selection. In each cluster the named indices
/// are removed from the highest down, each as often as it is named and
/// while it is still an index (see [`lemma_deletion_keeps_unselected`]
/// for a selection that names no placement twice).
pub fn delete_selected<T>(clusters: &mut Vec<Vec<T>>, selection: &mut Vec<(usize, usize)>)
    ensures
        final(clusters).len() == old(clusters).len(),
        forall|c: int| 0 <= c < old(clusters).len() ==> #[trigger] final(clusters)@[c]@ == after_deletion(
            old(clusters)@[c]@,
            c as usize,
            old(selection)@,
        ),
        final(selection)@ == Seq::<(usize, usize)>::empty(),
{
    let ghost orig = clusters@;
    let mut c: usize = 0;
    while c < clusters.len()
        invariant
            clusters@.len() == orig.len(),
            c <= orig.len(),
            forall|k: int| 0 <= k < c ==> #[trigger] clusters@[k]@ == after_deletion(orig[k]@, k as usize, selection@),
            forall|k: int| c <= k < orig.len() ==> #[trigger] clusters@[k] == orig[k],
        decreases orig.len() - c,
    {
        let mut placements: Vec<T> = Vec::new();
        clusters.set_and_swap(c, &mut placements);
        remove_selected_from(&mut placements, c, selection);
        clusters.set_and_swap(c, &mut placements);
        c += 1;
    }
    selection.clear();
    assert(selection@ =~= Seq::<(usize, usize)>::empty());
}

/// The undo key: with the object tool the active cluster loses its last
/// placement, with the biome tool the last biome region goes, and with the
/// selection tool the selection is cleared. Nothing else changes.
pub fn undo<P, B>(
    tool: EditorTool,
    active_placements: &mut Vec<P>,
    biome_regions: &mut Vec<B>,
    selection: &mut Vec<(usize, usize)>,
)
    ensures
        final(active_placements)@ == (if tool == EditorTool::Objects && old(active_placements).len() > 0 {
            old(active_placements)@.drop_last()
        } else {
            old(active_placements)@
        }),
        final(biome_regions)@ == (if tool == EditorTool::Biomes && old(biome_regions).len() > 0 {
            old(biome_regions)@.drop_last()
        } else {
            old(biome_regions)@
        }),
        final(selection)@ == (if tool == EditorTool::Select {
            Seq::<(usize, usize)>::empty()
        } else {
            old(selection)@
        }),
{
    match tool {
        EditorTool::Objects => {
            let _ = active_placements.pop();
        },
        EditorTool::Biomes => {
            let _ = biome_regions.pop();
        },
        EditorTool::Select => {
            selection.clear();
            assert(selection@ =~= Seq::<(usize, usize)>::empty());
        },
    }
}

} // verus!
