//! The locations at which a file may be found in a source.

use vstd::prelude::*;
use vstd::slice::slice_subrange;

verus! {

/// A path within a source, relative to its root.
#[derive(Clone, Debug, PartialEq, Eq, PartialOrd, Ord)]
pub struct SourceLocation {
    pub path: String,
}

impl SourceLocation {
    /// The location with the given path.
    pub fn new(path: String) -> (location: Self)
        ensures
            location.path == path,
    {
        SourceLocation { path }
    }
}

/// The two questions that the layout of a source answers.
///
/// What a file type, an object, a filter and a layout are is of no concern to the search for
/// locations: it hands them on to these functions and goes by the answers.
#[derive(Clone, Copy, Debug)]
pub struct PathLookup<A, P> {
    /// Whether the filters of the source let the given object be searched as the given file type.
    pub is_allowed: A,
    /// The paths at which a layout puts the given file type of the given object.
    pub get_directory_paths: P,
}

impl<A, P> PathLookup<A, P> {
    /// Both questions can be asked for any file type.
    pub open spec fn answers<T, F, O, L>(&self, filters: &F, object_id: &O, layout: L) -> bool where
        A: Fn(&F, &O, T) -> bool,
        P: Fn(L, T, &O) -> Vec<String>,
     {
        &&& forall|filetype: T|
            #[trigger] call_requires(self.is_allowed, (filters, object_id, filetype))
        &&& forall|filetype: T|
            #[trigger] call_requires(self.get_directory_paths, (layout, filetype, object_id))
    }

    /// The answers give `paths` for one file type: the paths of the layout if the file type is
    /// allowed, and none if it is not.
    pub open spec fn gives<T, F, O, L>(
        &self,
        filters: &F,
        object_id: &O,
        layout: L,
        filetype: T,
        paths: Seq<String>,
    ) -> bool where A: Fn(&F, &O, T) -> bool, P: Fn(L, T, &O) -> Vec<String> {
        ||| {
            &&& call_ensures(self.is_allowed, (filters, object_id, filetype), false)
            &&& paths.len() == 0
        }
        ||| {
            &&& call_ensures(self.is_allowed, (filters, object_id, filetype), true)
            &&& exists|listed: Vec<String>|
                #[trigger] call_ensures(
                    self.get_directory_paths,
                    (layout, filetype, object_id),
                    listed,
                ) && listed@ == paths
        }
    }

    /// The answers give `paths[i]` for each `filetypes[i]`.
    pub open spec fn gives_all<T, F, O, L>(
        &self,
        filters: &F,
        object_id: &O,
        layout: L,
        filetypes: Seq<T>,
        paths: Seq<Seq<String>>,
    ) -> bool where A: Fn(&F, &O, T) -> bool, P: Fn(L, T, &O) -> Vec<String> {
        &&& paths.len() == filetypes.len()
        &&& forall|i: int|
            0 <= i < filetypes.len() ==> #[trigger] self.gives(
                filters,
                object_id,
                layout,
                filetypes[i],
                paths[i],
            )
    }

    /// The answers give `paths` for all file types together, in the order in which they are tried.
    pub open spec fn finds<T, F, O, L>(
        &self,
        filters: &F,
        object_id: &O,
        layout: L,
        filetypes: Seq<T>,
        paths: Seq<String>,
    ) -> bool where A: Fn(&F, &O, T) -> bool, P: Fn(L, T, &O) -> Vec<String> {
        exists|listed: Seq<Seq<String>>|
            {
                &&& #[trigger] self.gives_all(filters, object_id, layout, filetypes, listed)
                &&& paths == search_order(listed)
            }
    }

    /// The answers give `files`, where `file_at` is the file at a path: those at the paths that a
    /// search over the file types finds, in the order of the search.
    pub open spec fn lists<T, F, O, L, R>(
        &self,
        filters: &F,
        object_id: &O,
        layout: L,
        filetypes: Seq<T>,
        file_at: spec_fn(String) -> R,
        files: Seq<R>,
    ) -> bool where A: Fn(&F, &O, T) -> bool, P: Fn(L, T, &O) -> Vec<String> {
        exists|paths: Seq<String>|
            {
                &&& #[trigger] self.finds(filters, object_id, layout, filetypes, paths)
                &&& files == paths.map_values(file_at)
            }
    }

    /// Whether a file type is allowed is what `allowed` says, and its paths are those that `listed`
    /// says.
    pub open spec fn answers_as<T, F, O, L>(
        &self,
        filters: &F,
        object_id: &O,
        layout: L,
        allowed: spec_fn(T) -> bool,
        listed: spec_fn(T) -> Seq<String>,
    ) -> bool where A: Fn(&F, &O, T) -> bool, P: Fn(L, T, &O) -> Vec<String> {
        &&& forall|filetype: T, answer: bool| #[trigger]
            call_ensures(self.is_allowed, (filters, object_id, filetype), answer) ==> answer
                == allowed(filetype)
        &&& forall|filetype: T, answer: Vec<String>| #[trigger]
            call_ensures(self.get_directory_paths, (layout, filetype, object_id), answer)
                ==> answer@ == listed(filetype)
    }

    /// Each question is answered in one way only.
    pub open spec fn is_determined<T, F, O, L>(
        &self,
        filters: &F,
        object_id: &O,
        layout: L,
    ) -> bool where A: Fn(&F, &O, T) -> bool, P: Fn(L, T, &O) -> Vec<String> {
        &&& forall|filetype: T, first: bool, second: bool|
            {
                &&& #[trigger] call_ensures(
                    self.is_allowed,
                    (filters, object_id, filetype),
                    first,
                )
                &&& #[trigger] call_ensures(
                    self.is_allowed,
                    (filters, object_id, filetype),
                    second,
                )
            } ==> first == second
        &&& forall|filetype: T, first: Vec<String>, second: Vec<String>|
            {
                &&& #[trigger] call_ensures(
                    self.get_directory_paths,
                    (layout, filetype, object_id),
                    first,
                )
                &&& #[trigger] call_ensures(
                    self.get_directory_paths,
                    (layout, filetype, object_id),
                    second,
                )
            } ==> first@ == second@
    }
}

/// The order in which the paths of several file types are tried: file type by file type, and
/// within one file type from the last path to the first.
pub open spec fn search_order(paths: Seq<Seq<String>>) -> Seq<String>
    decreases paths.len(),
{
    if paths.len() == 0 {
        Seq::empty()
    } else {
        search_order(paths.drop_last()) + paths.last().reverse()
    }
}

/// Generates the [`SourceLocation`]s at which to attempt a download, one at a time.
#[derive(Debug)]
pub struct SourceLocationIter<'a, T, F, O, L, A, P> {
    /// The file types that are still to be searched.
    pub filetypes: &'a [T],
    /// The filters of the source.
    pub filters: &'a F,
    /// The object that is looked for.
    pub object_id: &'a O,
    /// The layout of the source.
    pub layout: L,
    /// What the layout and the filters mean.
    pub lookup: &'a PathLookup<A, P>,
    /// The paths of the current file type that are still to be tried, the next one last.
    pub next: Vec<String>,
}

impl<'a, T, F, O, L, A, P> SourceLocationIter<'a, T, F, O, L, A, P> where
    T: Copy,
    L: Copy,
    A: Fn(&F, &O, T) -> bool,
    P: Fn(L, T, &O) -> Vec<String>,
 {
    /// The questions that this search will ask can be asked.
    pub open spec fn ready(&self) -> bool {
        self.lookup.answers::<T, F, O, L>(self.filters, self.object_id, self.layout)
    }

    /// The answers to this search's questions give `paths` for one file type.
    pub open spec fn gives(&self, filetype: T, paths: Seq<String>) -> bool {
        self.lookup.gives(self.filters, self.object_id, self.layout, filetype, paths)
    }

    /// This search differs from `before` at most in what is left of it.
    pub open spec fn continues(&self, before: &Self) -> bool {
        &&& self.filters == before.filters
        &&& self.object_id == before.object_id
        &&& self.layout == before.layout
        &&& self.lookup == before.lookup
    }

    /// There are no paths for any of the first `count` file types that were left `before`.
    pub open spec fn skipped(before: &Self, count: int) -> bool {
        &&& 0 <= count <= before.filetypes@.len()
        &&& forall|i: int|
            0 <= i < count ==> #[trigger] before.gives(before.filetypes@[i], Seq::empty())
    }

    /// Returns the next location, or nothing if all have been returned.
    pub fn next(&mut self) -> (location: Option<SourceLocation>)
        requires
            old(self).ready(),
        ensures
            final(self).continues(old(self)),
            // Paths of the current file type are left: the last one is taken off.
            old(self).next@.len() > 0 ==> {
                &&& location matches Some(location)
                &&& location.path == old(self).next@.last()
                &&& final(self).next@ == old(self).next@.drop_last()
                &&& final(self).filetypes@ == old(self).filetypes@
            },
            old(self).next@.len() == 0 ==> match location {
                // The search moves on to the next file type that has paths.
                Some(location) => exists|count: int, paths: Seq<String>|
                    {
                        &&& #[trigger] Self::skipped(old(self), count)
                        &&& count < old(self).filetypes@.len()
                        &&& #[trigger] old(self).gives(old(self).filetypes@[count], paths)
                        &&& paths.len() > 0
                        &&& location.path == paths.last()
                        &&& final(self).next@ == paths.drop_last()
                        &&& final(self).filetypes@ == old(self).filetypes@.skip(count + 1)
                    },
                // No file type that is left has paths.
                None => {
                    &&& Self::skipped(old(self), old(self).filetypes@.len() as int)
                    &&& final(self).next@.len() == 0
                    &&& final(self).filetypes@.len() == 0
                },
            },
    {
        let ghost before = *self;
        let ghost mut count: int = 0;
        proof {
            assert(before.filetypes@.skip(0) == before.filetypes@);
        }
        while self.next.len() == 0
            invariant
                before == *old(self),
                before.ready(),
                self.continues(&before),
                Self::skipped(&before, count),
                before.next@.len() > 0 ==> self.next@ == before.next@ && self.filetypes@
                    == before.filetypes@,
                before.next@.len() == 0 && self.next@.len() == 0 ==> self.filetypes@
                    == before.filetypes@.skip(count),
                before.next@.len() == 0 && self.next@.len() > 0 ==> {
                    &&& count < before.filetypes@.len()
                    &&& before.gives(before.filetypes@[count], self.next@)
                    &&& self.filetypes@ == before.filetypes@.skip(count + 1)
                },
            decreases self.filetypes@.len(),
        {
            let left: usize = self.filetypes.len();
            if left == 0 {
                return None;
            }
            let filetype = self.filetypes[0];
            let lookup = self.lookup;
            self.filetypes = slice_subrange(self.filetypes, 1, left);
            proof {
                assert(self.filetypes@ == before.filetypes@.skip(count + 1));
                assert(filetype == before.filetypes@[count]);
            }
            if (lookup.is_allowed)(self.filters, self.object_id, filetype) {
                self.next = (lookup.get_directory_paths)(self.layout, filetype, self.object_id);
                proof {
                    assert(before.gives(filetype, self.next@));
                    if self.next@.len() == 0 {
                        assert(self.next@ == Seq::<String>::empty());
                        count = count + 1;
                    }
                }
            } else {
                proof {
                    assert(before.gives(filetype, Seq::empty()));
                    count = count + 1;
                }
            }
        }
        match self.next.pop() {
            Some(path) => Some(SourceLocation::new(path)),
            None => None,
        }
    }

    /// Returns all locations that are left, in the order of the search.
    pub fn collect(self) -> (locations: Vec<SourceLocation>)
        requires
            self.ready(),
        ensures
            exists|paths: Seq<String>|
                {
                    &&& #[trigger] self.lookup.finds(
                        self.filters,
                        self.object_id,
                        self.layout,
                        self.filetypes@,
                        paths,
                    )
                    &&& paths_of(locations@) == self.next@.reverse() + paths
                },
    {
        let mut search = self;
        let mut locations: Vec<SourceLocation> = Vec::new();
        let ghost mut taken: int = 0;
        let ghost mut paths: Seq<Seq<String>> = Seq::empty();
        proof {
            assert(self.filetypes@.skip(0) == self.filetypes@);
            assert(paths_of(locations@) + self.next@.reverse() == self.next@.reverse()
                + search_order(paths));
        }
        loop
            invariant_except_break
                self.ready(),
                search.continues(&self),
                0 <= taken <= self.filetypes@.len(),
                search.filetypes@ == self.filetypes@.skip(taken),
                paths.len() == taken,
                forall|i: int|
                    0 <= i < taken ==> #[trigger] self.gives(self.filetypes@[i], paths[i]),
                paths_of(locations@) + search.next@.reverse() == self.next@.reverse()
                    + search_order(paths),
            ensures
                self.lookup.gives_all(
                    self.filters,
                    self.object_id,
                    self.layout,
                    self.filetypes@,
                    paths,
                ),
                paths_of(locations@) == self.next@.reverse() + search_order(paths),
            decreases search.filetypes@.len(), search.next@.len(),
        {
            let ghost before = search;
            let ghost earlier = locations@;
            match search.next() {
                Some(location) => {
                    let ghost found = location;
                    locations.push(location);
                    proof {
                        assert(paths_of(locations@) == paths_of(earlier).push(found.path));
                        if before.next@.len() > 0 {
                            lemma_reverse_pop(before.next@);
                            assert(paths_of(locations@) + search.next@.reverse() == paths_of(
                                earlier,
                            ) + before.next@.reverse());
                        } else {
                            let (count, listed) = choose|count: int, listed: Seq<String>|
                                {
                                    &&& #[trigger] Self::skipped(&before, count)
                                    &&& count < before.filetypes@.len()
                                    &&& #[trigger] before.gives(before.filetypes@[count], listed)
                                    &&& listed.len() > 0
                                    &&& found.path == listed.last()
                                    &&& search.next@ == listed.drop_last()
                                    &&& search.filetypes@ == before.filetypes@.skip(count + 1)
                                };
                            let ghost covered = paths + no_paths(count as nat);
                            lemma_search_order_of_no_paths(paths, count as nat);
                            lemma_reverse_pop(listed);
                            assert(covered.push(listed).drop_last() == covered);
                            assert(paths_of(locations@) + search.next@.reverse()
                                == self.next@.reverse() + search_order(covered.push(listed)));
                            assert forall|i: int| 0 <= i < taken + count + 1 implies
                                #[trigger] self.gives(
                                self.filetypes@[i],
                                covered.push(listed)[i],
                            ) by {
                                if taken <= i < taken + count {
                                    let at = i - taken;
                                    assert(before.gives(before.filetypes@[at], Seq::empty()));
                                }
                            }
                            assert(search.filetypes@ == self.filetypes@.skip(taken + count + 1));
                            paths = covered.push(listed);
                            taken = taken + count + 1;
                        }
                    }
                },
                None => {
                    proof {
                        let count = before.filetypes@.len();
                        let covered = paths + no_paths(count);
                        lemma_search_order_of_no_paths(paths, count);
                        assert forall|i: int| 0 <= i < self.filetypes@.len() implies
                            #[trigger] self.lookup.gives(
                            self.filters,
                            self.object_id,
                            self.layout,
                            self.filetypes@[i],
                            covered[i],
                        ) by {
                            if taken <= i {
                                assert(before.gives(before.filetypes@[i - taken], Seq::empty()));
                            } else {
                                assert(self.gives(self.filetypes@[i], paths[i]));
                            }
                        }
                        assert(paths_of(locations@) + search.next@.reverse() == paths_of(
                            locations@,
                        ));
                        paths = covered;
                    }
                    break;
                },
            }
        }
        proof {
            assert(self.lookup.finds(
                self.filters,
                self.object_id,
                self.layout,
                self.filetypes@,
                search_order(paths),
            ));
        }
        locations
    }
}

/// The paths of the given locations.
pub open spec fn paths_of(locations: Seq<SourceLocation>) -> Seq<String> {
    locations.map_values(|location: SourceLocation| location.path)
}

/// The answers for `count` file types that have no paths.
spec fn no_paths(count: nat) -> Seq<Seq<String>> {
    Seq::new(count, |i: int| Seq::empty())
}

proof fn lemma_search_order_of_no_paths(paths: Seq<Seq<String>>, count: nat)
    ensures
        search_order(paths + no_paths(count)) == search_order(paths),
    decreases count,
{
    if count == 0 {
        assert(paths + no_paths(count) == paths);
    } else {
        let fewer = (count - 1) as nat;
        lemma_search_order_of_no_paths(paths, fewer);
        assert((paths + no_paths(count)).drop_last() == paths + no_paths(fewer));
        assert((paths + no_paths(count)).last().reverse() == Seq::<String>::empty());
    }
}

/// Searching some file types and then others is the same as searching all of them in one go.
pub proof fn law_file_types_are_searched_in_order(first: Seq<Seq<String>>, second: Seq<Seq<String>>)
    ensures
        search_order(first + second) == search_order(first) + search_order(second),
    decreases second.len(),
{
    if second.len() == 0 {
        assert(first + second == first);
        assert(search_order(first) + search_order(second) == search_order(first));
    } else {
        law_file_types_are_searched_in_order(first, second.drop_last());
        assert((first + second).drop_last() == first + second.drop_last());
        assert((first + second).last() == second.last());
    }
}

/// The paths of a single file type are tried from the last to the first.
pub proof fn law_last_path_is_tried_first(paths: Seq<String>)
    ensures
        search_order(seq![paths]) == paths.reverse(),
{
    let single = seq![paths];
    assert(single.drop_last() == Seq::<Seq<String>>::empty());
    assert(search_order(single.drop_last()) == Seq::<String>::empty());
    assert(single.last() == paths);
}

/// The number of paths of all file types together.
pub open spec fn path_count(paths: Seq<Seq<String>>) -> nat
    decreases paths.len(),
{
    if paths.len() == 0 {
        0
    } else {
        path_count(paths.drop_last()) + paths.last().len()
    }
}

/// The search tries every path of every file type and nothing else, and it tries as many paths
/// as there are in all.
pub proof fn law_search_is_complete(paths: Seq<Seq<String>>)
    ensures
        search_order(paths).len() == path_count(paths),
        forall|path: String|
            #[trigger] search_order(paths).contains(path) <==> exists|i: int|
                0 <= i < paths.len() && #[trigger] paths[i].contains(path),
    decreases paths.len(),
{
    if paths.len() > 0 {
        let fewer = paths.drop_last();
        law_search_is_complete(fewer);
        let last = paths.last();
        assert forall|path: String|
            #[trigger] search_order(paths).contains(path) <==> exists|i: int|
                0 <= i < paths.len() && #[trigger] paths[i].contains(path) by {
            if search_order(paths).contains(path) {
                let at = choose|at: int|
                    0 <= at < search_order(paths).len() && search_order(paths)[at] == path;
                let split = search_order(fewer).len();
                if at < split {
                    assert(search_order(fewer)[at] == path);
                    assert(search_order(fewer).contains(path));
                    let i = choose|i: int|
                        0 <= i < fewer.len() && #[trigger] fewer[i].contains(path);
                    assert(paths[i].contains(path));
                } else {
                    assert(last.reverse()[at - split] == path);
                    assert(last[last.len() - 1 - (at - split)] == path);
                    assert(paths[paths.len() - 1].contains(path));
                }
            }
            if exists|i: int| 0 <= i < paths.len() && #[trigger] paths[i].contains(path) {
                let i = choose|i: int| 0 <= i < paths.len() && #[trigger] paths[i].contains(path);
                if i < fewer.len() {
                    assert(fewer[i].contains(path));
                    assert(search_order(fewer).contains(path));
                    let at = choose|at: int|
                        0 <= at < search_order(fewer).len() && search_order(fewer)[at] == path;
                    assert(search_order(paths)[at] == path);
                } else {
                    let at = choose|at: int| 0 <= at < last.len() && last[at] == path;
                    let split = search_order(fewer).len();
                    assert(last.reverse()[last.len() - 1 - at] == path);
                    assert(search_order(paths)[split + last.len() - 1 - at] == path);
                }
            }
        }
    }
}

/// A file type that the filters never allow contributes no location, whatever the layout says.
pub proof fn law_disallowed_file_types_have_no_locations<T, F, O, L, A, P>(
    lookup: PathLookup<A, P>,
    filters: &F,
    object_id: &O,
    layout: L,
    filetype: T,
    paths: Seq<String>,
) where A: Fn(&F, &O, T) -> bool, P: Fn(L, T, &O) -> Vec<String>
    requires
        !call_ensures(lookup.is_allowed, (filters, object_id, filetype), true),
        lookup.gives(filters, object_id, layout, filetype, paths),
    ensures
        search_order(seq![paths]) == Seq::<String>::empty(),
{
    law_last_path_is_tried_first(paths);
    assert(paths.reverse() == Seq::<String>::empty());
}

/// Where the filters and the layout answer each question in one way only, so does the search:
/// two runs over the same file types find the same paths.
pub proof fn law_search_is_determined<T, F, O, L, A, P>(
    lookup: PathLookup<A, P>,
    filters: &F,
    object_id: &O,
    layout: L,
    filetypes: Seq<T>,
    allowed: spec_fn(T) -> bool,
    listed: spec_fn(T) -> Seq<String>,
    paths: Seq<Seq<String>>,
) where A: Fn(&F, &O, T) -> bool, P: Fn(L, T, &O) -> Vec<String>
    requires
        lookup.answers_as(filters, object_id, layout, allowed, listed),
        lookup.gives_all(filters, object_id, layout, filetypes, paths),
    ensures
        paths == filetypes.map_values(
            |filetype: T|
                if allowed(filetype) {
                    listed(filetype)
                } else {
                    Seq::empty()
                },
        ),
{
    let expected = filetypes.map_values(
        |filetype: T|
            if allowed(filetype) {
                listed(filetype)
            } else {
                Seq::empty()
            },
    );
    assert forall|i: int| 0 <= i < filetypes.len() implies paths[i] == expected[i] by {
        assert(lookup.gives(filters, object_id, layout, filetypes[i], paths[i]));
        assert(paths[i].len() == 0 ==> paths[i] == Seq::<String>::empty());
    }
    assert(paths == expected);
}

/// Where the filters and the layout answer each question in one way only, a search finds the same
/// paths in the same order whenever it is made.
pub proof fn law_search_has_one_result<T, F, O, L, A, P>(
    lookup: PathLookup<A, P>,
    filters: &F,
    object_id: &O,
    layout: L,
    filetypes: Seq<T>,
    first: Seq<String>,
    second: Seq<String>,
) where A: Fn(&F, &O, T) -> bool, P: Fn(L, T, &O) -> Vec<String>
    requires
        lookup.is_determined::<T, F, O, L>(filters, object_id, layout),
        lookup.finds(filters, object_id, layout, filetypes, first),
        lookup.finds(filters, object_id, layout, filetypes, second),
    ensures
        first == second,
{
    let one = choose|listed: Seq<Seq<String>>|
        {
            &&& #[trigger] lookup.gives_all(filters, object_id, layout, filetypes, listed)
            &&& first == search_order(listed)
        };
    let other = choose|listed: Seq<Seq<String>>|
        {
            &&& #[trigger] lookup.gives_all(filters, object_id, layout, filetypes, listed)
            &&& second == search_order(listed)
        };
    assert forall|i: int| 0 <= i < filetypes.len() implies one[i] == other[i] by {
        assert(lookup.gives(filters, object_id, layout, filetypes[i], one[i]));
        assert(lookup.gives(filters, object_id, layout, filetypes[i], other[i]));
        assert(one[i].len() == 0 && other[i].len() == 0 ==> one[i] == other[i]);
    }
    assert(one == other);
}

/// A search over some file types and then others finds what a search over the former finds, and
/// after it what a search over the latter finds. Every such pair of results is also a result of the
/// whole search.
pub proof fn law_searches_are_joined<T, F, O, L, A, P>(
    lookup: PathLookup<A, P>,
    filters: &F,
    object_id: &O,
    layout: L,
    first: Seq<T>,
    second: Seq<T>,
    paths: Seq<String>,
) where A: Fn(&F, &O, T) -> bool, P: Fn(L, T, &O) -> Vec<String>
    ensures
        lookup.finds(filters, object_id, layout, first + second, paths) <==> exists|
            front: Seq<String>,
            back: Seq<String>,
        |
            {
                &&& #[trigger] lookup.finds(filters, object_id, layout, first, front)
                &&& #[trigger] lookup.finds(filters, object_id, layout, second, back)
                &&& paths == front + back
            },
{
    let all = first + second;
    if lookup.finds(filters, object_id, layout, all, paths) {
        let listed = choose|listed: Seq<Seq<String>>|
            {
                &&& #[trigger] lookup.gives_all(filters, object_id, layout, all, listed)
                &&& paths == search_order(listed)
            };
        let front = listed.take(first.len() as int);
        let back = listed.skip(first.len() as int);
        assert forall|i: int| 0 <= i < first.len() implies #[trigger] lookup.gives(
            filters,
            object_id,
            layout,
            first[i],
            front[i],
        ) by {
            assert(lookup.gives(filters, object_id, layout, all[i], listed[i]));
        }
        assert forall|i: int| 0 <= i < second.len() implies #[trigger] lookup.gives(
            filters,
            object_id,
            layout,
            second[i],
            back[i],
        ) by {
            let at = first.len() + i;
            assert(lookup.gives(filters, object_id, layout, all[at], listed[at]));
        }
        assert(lookup.gives_all(filters, object_id, layout, first, front));
        assert(lookup.gives_all(filters, object_id, layout, second, back));
        assert(listed == front + back);
        law_file_types_are_searched_in_order(front, back);
        assert(lookup.finds(filters, object_id, layout, first, search_order(front)));
        assert(lookup.finds(filters, object_id, layout, second, search_order(back)));
    }
    if exists|front: Seq<String>, back: Seq<String>|
        {
            &&& #[trigger] lookup.finds(filters, object_id, layout, first, front)
            &&& #[trigger] lookup.finds(filters, object_id, layout, second, back)
            &&& paths == front + back
        } {
        let (front, back) = choose|front: Seq<String>, back: Seq<String>|
            {
                &&& #[trigger] lookup.finds(filters, object_id, layout, first, front)
                &&& #[trigger] lookup.finds(filters, object_id, layout, second, back)
                &&& paths == front + back
            };
        let one = choose|listed: Seq<Seq<String>>|
            {
                &&& #[trigger] lookup.gives_all(filters, object_id, layout, first, listed)
                &&& front == search_order(listed)
            };
        let other = choose|listed: Seq<Seq<String>>|
            {
                &&& #[trigger] lookup.gives_all(filters, object_id, layout, second, listed)
                &&& back == search_order(listed)
            };
        let listed = one + other;
        assert forall|i: int| 0 <= i < all.len() implies #[trigger] lookup.gives(
            filters,
            object_id,
            layout,
            all[i],
            listed[i],
        ) by {
            if i < first.len() {
                assert(lookup.gives(filters, object_id, layout, first[i], one[i]));
            } else {
                let at = i - first.len();
                assert(lookup.gives(filters, object_id, layout, second[at], other[at]));
            }
        }
        law_file_types_are_searched_in_order(one, other);
        assert(lookup.gives_all(filters, object_id, layout, all, listed));
    }
}

/// Nothing is found where no file types are asked for.
pub proof fn law_no_file_types_have_no_locations<T, F, O, L, A, P>(
    lookup: PathLookup<A, P>,
    filters: &F,
    object_id: &O,
    layout: L,
    paths: Seq<String>,
) where A: Fn(&F, &O, T) -> bool, P: Fn(L, T, &O) -> Vec<String>
    ensures
        lookup.finds(filters, object_id, layout, Seq::<T>::empty(), paths) <==> paths
            == Seq::<String>::empty(),
{
    let none = Seq::<Seq<String>>::empty();
    assert(lookup.gives_all(filters, object_id, layout, Seq::<T>::empty(), none));
    assert(search_order(none) == Seq::<String>::empty());
    if lookup.finds(filters, object_id, layout, Seq::<T>::empty(), paths) {
        let listed = choose|listed: Seq<Seq<String>>|
            {
                &&& #[trigger] lookup.gives_all(
                    filters,
                    object_id,
                    layout,
                    Seq::<T>::empty(),
                    listed,
                )
                &&& paths == search_order(listed)
            };
        assert(listed == none);
    }
}

/// Where the filters and the layout answer each question in one way only, there is one list of
/// files.
pub proof fn lemma_listing_has_one_result<T, F, O, L, A, P, R>(
    lookup: PathLookup<A, P>,
    filters: &F,
    object_id: &O,
    layout: L,
    filetypes: Seq<T>,
    file_at: spec_fn(String) -> R,
    first: Seq<R>,
    second: Seq<R>,
) where A: Fn(&F, &O, T) -> bool, P: Fn(L, T, &O) -> Vec<String>
    requires
        lookup.is_determined::<T, F, O, L>(filters, object_id, layout),
        lookup.lists(filters, object_id, layout, filetypes, file_at, first),
        lookup.lists(filters, object_id, layout, filetypes, file_at, second),
    ensures
        first == second,
{
    let one = choose|paths: Seq<String>|
        {
            &&& #[trigger] lookup.finds(filters, object_id, layout, filetypes, paths)
            &&& first == paths.map_values(file_at)
        };
    let other = choose|paths: Seq<String>|
        {
            &&& #[trigger] lookup.finds(filters, object_id, layout, filetypes, paths)
            &&& second == paths.map_values(file_at)
        };
    law_search_has_one_result(lookup, filters, object_id, layout, filetypes, one, other);
}

/// Where the filters and the layout answer each question in one way only, the list for some file
/// types and then others is the list for the former and after it that for the latter. For no file
/// types it is empty.
pub proof fn lemma_listings_are_joined<T, F, O, L, A, P, R>(
    lookup: PathLookup<A, P>,
    filters: &F,
    object_id: &O,
    layout: L,
    first: Seq<T>,
    second: Seq<T>,
    file_at: spec_fn(String) -> R,
    front: Seq<R>,
    back: Seq<R>,
    all: Seq<R>,
) where A: Fn(&F, &O, T) -> bool, P: Fn(L, T, &O) -> Vec<String>
    requires
        lookup.is_determined::<T, F, O, L>(filters, object_id, layout),
        lookup.lists(filters, object_id, layout, first, file_at, front),
        lookup.lists(filters, object_id, layout, second, file_at, back),
        lookup.lists(filters, object_id, layout, first + second, file_at, all),
    ensures
        all == front + back,
        first.len() == 0 ==> front.len() == 0,
{
    let one = choose|paths: Seq<String>|
        {
            &&& #[trigger] lookup.finds(filters, object_id, layout, first, paths)
            &&& front == paths.map_values(file_at)
        };
    let other = choose|paths: Seq<String>|
        {
            &&& #[trigger] lookup.finds(filters, object_id, layout, second, paths)
            &&& back == paths.map_values(file_at)
        };
    law_searches_are_joined(lookup, filters, object_id, layout, first, second, one + other);
    let joined = (one + other).map_values(file_at);
    assert(lookup.lists(filters, object_id, layout, first + second, file_at, joined));
    lemma_listing_has_one_result(
        lookup,
        filters,
        object_id,
        layout,
        first + second,
        file_at,
        all,
        joined,
    );
    assert(joined == front + back);
    if first.len() == 0 {
        assert(first == Seq::<T>::empty());
        law_no_file_types_have_no_locations::<T, F, O, L, A, P>(
            lookup,
            filters,
            object_id,
            layout,
            one,
        );
    }
}

proof fn lemma_reverse_pop(paths: Seq<String>)
    requires
        paths.len() > 0,
    ensures
        paths.reverse() == seq![paths.last()] + paths.drop_last().reverse(),
{
}

/// A location has the path that it is made with.
pub proof fn law_locations_keep_their_path(path: String, location: SourceLocation)
    requires
        call_ensures(SourceLocation::new, (path,), location),
    ensures
        location.path == path,
{
}

/// As long as paths of a file type are left, the last of them is the next location. It is taken
/// away, and nothing else of the search changes.
pub proof fn law_paths_at_hand_come_first<'a, T, F, O, L, A, P>(
    search: &mut SourceLocationIter<'a, T, F, O, L, A, P>,
    location: Option<SourceLocation>,
) where T: Copy, L: Copy, A: Fn(&F, &O, T) -> bool, P: Fn(L, T, &O) -> Vec<String>
    requires
        call_ensures(SourceLocationIter::<'a, T, F, O, L, A, P>::next, (search,), location),
        old(search).next@.len() > 0,
    ensures
        location is Some,
        old(search).next@ == final(search).next@.push(location->0.path),
        final(search).filetypes@ == old(search).filetypes@,
        final(search).filters == old(search).filters,
        final(search).object_id == old(search).object_id,
        final(search).layout == old(search).layout,
        final(search).lookup == old(search).lookup,
{
    assert(old(search).next@ == old(search).next@.drop_last().push(old(search).next@.last()));
}

/// A file type is passed over exactly because it is not allowed or has no paths: if no paths are
/// left, the next location is the last path of the first file type that is allowed and has any. The
/// search goes on with its other paths, and after them with the file types behind it.
pub proof fn law_file_types_are_passed_over_for_a_reason<'a, T, F, O, L, A, P>(
    search: &mut SourceLocationIter<'a, T, F, O, L, A, P>,
    location: Option<SourceLocation>,
    allowed: spec_fn(T) -> bool,
    listed: spec_fn(T) -> Seq<String>,
) where T: Copy, L: Copy, A: Fn(&F, &O, T) -> bool, P: Fn(L, T, &O) -> Vec<String>
    requires
        call_ensures(SourceLocationIter::<'a, T, F, O, L, A, P>::next, (search,), location),
        old(search).next@.len() == 0,
        old(search).lookup.answers_as(
            old(search).filters,
            old(search).object_id,
            old(search).layout,
            allowed,
            listed,
        ),
    ensures
        location is None <==> forall|i: int|
            0 <= i < old(search).filetypes@.len() ==> (!allowed(
                #[trigger] old(search).filetypes@[i],
            ) || listed(old(search).filetypes@[i]).len() == 0),
        location is None ==> final(search).next@.len() == 0 && final(search).filetypes@.len() == 0,
        location matches Some(location) ==> {
            let left = final(search).filetypes@.len() as int;
            let at = old(search).filetypes@.len() - left - 1;
            &&& 0 <= at < old(search).filetypes@.len()
            &&& forall|i: int|
                0 <= i < at ==> (!allowed(#[trigger] old(search).filetypes@[i]) || listed(
                    old(search).filetypes@[i],
                ).len() == 0)
            &&& allowed(old(search).filetypes@[at])
            &&& listed(old(search).filetypes@[at]) == final(search).next@.push(location.path)
            &&& final(search).filetypes@ == old(search).filetypes@.skip(at + 1)
        },
        final(search).filters == old(search).filters,
        final(search).object_id == old(search).object_id,
        final(search).layout == old(search).layout,
        final(search).lookup == old(search).lookup,
{
    let before = *old(search);
    match location {
        Some(location) => {
            let (count, paths) = choose|count: int, paths: Seq<String>|
                {
                    &&& #[trigger] SourceLocationIter::<'a, T, F, O, L, A, P>::skipped(
                        &before,
                        count,
                    )
                    &&& count < before.filetypes@.len()
                    &&& #[trigger] before.gives(before.filetypes@[count], paths)
                    &&& paths.len() > 0
                    &&& location.path == paths.last()
                    &&& final(search).next@ == paths.drop_last()
                    &&& final(search).filetypes@ == before.filetypes@.skip(count + 1)
                };
            assert forall|i: int| 0 <= i < count implies (!allowed(
                #[trigger] before.filetypes@[i],
            ) || listed(before.filetypes@[i]).len() == 0) by {
                assert(before.gives(before.filetypes@[i], Seq::empty()));
            }
            assert(paths == paths.drop_last().push(paths.last()));
            assert(allowed(before.filetypes@[count]));
            assert(listed(before.filetypes@[count]) == paths);
        },
        None => {
            assert forall|i: int| 0 <= i < before.filetypes@.len() implies (!allowed(
                #[trigger] before.filetypes@[i],
            ) || listed(before.filetypes@[i]).len() == 0) by {
                assert(before.gives(before.filetypes@[i], Seq::empty()));
            }
        },
    }
}

proof fn lemma_one_more_file_type<T, F, O, L, A, P>(
    lookup: PathLookup<A, P>,
    filters: &F,
    object_id: &O,
    layout: L,
    filetypes: Seq<T>,
    filetype: T,
    allowed: spec_fn(T) -> bool,
    listed: spec_fn(T) -> Seq<String>,
    paths: Seq<String>,
    more: Seq<String>,
) where A: Fn(&F, &O, T) -> bool, P: Fn(L, T, &O) -> Vec<String>
    requires
        lookup.answers_as(filters, object_id, layout, allowed, listed),
        lookup.finds(filters, object_id, layout, filetypes, paths),
        lookup.finds(filters, object_id, layout, filetypes.push(filetype), more),
    ensures
        more == paths + (if allowed(filetype) {
            listed(filetype).reverse()
        } else {
            Seq::empty()
        }),
{
    let all = filetypes.push(filetype);
    let one = choose|one: Seq<Seq<String>>|
        {
            &&& #[trigger] lookup.gives_all(filters, object_id, layout, filetypes, one)
            &&& paths == search_order(one)
        };
    let other = choose|other: Seq<Seq<String>>|
        {
            &&& #[trigger] lookup.gives_all(filters, object_id, layout, all, other)
            &&& more == search_order(other)
        };
    law_search_is_determined(
        lookup,
        filters,
        object_id,
        layout,
        filetypes,
        allowed,
        listed,
        one,
    );
    law_search_is_determined(lookup, filters, object_id, layout, all, allowed, listed, other);
    assert(other.drop_last() == one);
    assert(Seq::<String>::empty().reverse() == Seq::<String>::empty());
}

/// What one more file type adds to a list of files: those at its paths, from the last to the first,
/// if it is allowed, and nothing if it is not. The rest of the list stays as it is.
pub proof fn lemma_listing_of_one_more_file_type<T, F, O, L, A, P, R>(
    lookup: PathLookup<A, P>,
    filters: &F,
    object_id: &O,
    layout: L,
    filetypes: Seq<T>,
    filetype: T,
    allowed: spec_fn(T) -> bool,
    listed: spec_fn(T) -> Seq<String>,
    file_at: spec_fn(String) -> R,
    files: Seq<R>,
    more: Seq<R>,
) where A: Fn(&F, &O, T) -> bool, P: Fn(L, T, &O) -> Vec<String>
    requires
        lookup.answers_as(filters, object_id, layout, allowed, listed),
        lookup.lists(filters, object_id, layout, filetypes, file_at, files),
        lookup.lists(filters, object_id, layout, filetypes.push(filetype), file_at, more),
    ensures
        more.len() == files.len() + (if allowed(filetype) {
            listed(filetype).len()
        } else {
            0
        }),
        forall|i: int| 0 <= i < files.len() ==> #[trigger] more[i] == files[i],
        forall|i: int|
            files.len() <= i < more.len() ==> #[trigger] more[i] == file_at(
                listed(filetype)[more.len() - 1 - i],
            ),
{
    let all = filetypes.push(filetype);
    let one = choose|paths: Seq<String>|
        {
            &&& #[trigger] lookup.finds(filters, object_id, layout, filetypes, paths)
            &&& files == paths.map_values(file_at)
        };
    let other = choose|paths: Seq<String>|
        {
            &&& #[trigger] lookup.finds(filters, object_id, layout, all, paths)
            &&& more == paths.map_values(file_at)
        };
    lemma_one_more_file_type(
        lookup,
        filters,
        object_id,
        layout,
        filetypes,
        filetype,
        allowed,
        listed,
        one,
        other,
    );
}

/// What is left of a search are the paths at hand, from the last to the first, and after them those
/// of the file types, each file type adding its own, from the last to the first, if it is allowed.
pub proof fn law_one_more_file_type_adds_its_paths<'a, T, F, O, L, A, P>(
    search: SourceLocationIter<'a, T, F, O, L, A, P>,
    longer: SourceLocationIter<'a, T, F, O, L, A, P>,
    filetype: T,
    allowed: spec_fn(T) -> bool,
    listed: spec_fn(T) -> Seq<String>,
    locations: Vec<SourceLocation>,
    more: Vec<SourceLocation>,
) where T: Copy, L: Copy, A: Fn(&F, &O, T) -> bool, P: Fn(L, T, &O) -> Vec<String>
    requires
        longer.filetypes@ == search.filetypes@.push(filetype),
        longer.filters == search.filters,
        longer.object_id == search.object_id,
        longer.layout == search.layout,
        longer.lookup == search.lookup,
        longer.next@ == search.next@,
        search.lookup.answers_as(
            search.filters,
            search.object_id,
            search.layout,
            allowed,
            listed,
        ),
        call_ensures(
            SourceLocationIter::<'a, T, F, O, L, A, P>::collect,
            (search,),
            locations,
        ),
        call_ensures(SourceLocationIter::<'a, T, F, O, L, A, P>::collect, (longer,), more),
    ensures
        more@.len() == locations@.len() + (if allowed(filetype) {
            listed(filetype).len()
        } else {
            0
        }),
        forall|i: int|
            0 <= i < locations@.len() ==> (#[trigger] more@[i]).path == locations@[i].path,
        forall|i: int|
            locations@.len() <= i < more@.len() ==> (#[trigger] more@[i]).path == listed(
                filetype,
            )[more@.len() - 1 - i],
{
    let lookup = *search.lookup;
    let layout = search.layout;
    let filetypes = search.filetypes@;
    let one = choose|paths: Seq<String>|
        {
            &&& #[trigger] lookup.finds(search.filters, search.object_id, layout, filetypes, paths)
            &&& paths_of(locations@) == search.next@.reverse() + paths
        };
    let other = choose|paths: Seq<String>|
        {
            &&& #[trigger] lookup.finds(
                search.filters,
                search.object_id,
                layout,
                longer.filetypes@,
                paths,
            )
            &&& paths_of(more@) == search.next@.reverse() + paths
        };
    lemma_one_more_file_type(
        lookup,
        search.filters,
        search.object_id,
        layout,
        filetypes,
        filetype,
        allowed,
        listed,
        one,
        other,
    );
    assert(paths_of(locations@).len() == locations@.len());
    assert(paths_of(more@).len() == more@.len());
    assert forall|i: int| 0 <= i < locations@.len() implies (#[trigger] more@[i]).path
        == locations@[i].path by {
        assert(paths_of(more@)[i] == more@[i].path);
        assert(paths_of(locations@)[i] == locations@[i].path);
    }
    assert forall|i: int| locations@.len() <= i < more@.len() implies (#[trigger] more@[i]).path
        == listed(filetype)[more@.len() - 1 - i] by {
        assert(paths_of(more@)[i] == more@[i].path);
    }
}

/// A search without file types has only the paths at hand left, from the last to the first.
pub proof fn law_paths_at_hand_are_collected<'a, T, F, O, L, A, P>(
    search: SourceLocationIter<'a, T, F, O, L, A, P>,
    locations: Vec<SourceLocation>,
) where T: Copy, L: Copy, A: Fn(&F, &O, T) -> bool, P: Fn(L, T, &O) -> Vec<String>
    requires
        search.filetypes@.len() == 0,
        call_ensures(
            SourceLocationIter::<'a, T, F, O, L, A, P>::collect,
            (search,),
            locations,
        ),
    ensures
        locations@.len() == search.next@.len(),
        forall|i: int|
            0 <= i < locations@.len() ==> (#[trigger] locations@[i]).path
                == search.next@[locations@.len() - 1 - i],
{
    let layout = search.layout;
    let paths = choose|paths: Seq<String>|
        {
            &&& #[trigger] search.lookup.finds(
                search.filters,
                search.object_id,
                layout,
                search.filetypes@,
                paths,
            )
            &&& paths_of(locations@) == search.next@.reverse() + paths
        };
    assert(search.filetypes@ == Seq::<T>::empty());
    law_no_file_types_have_no_locations::<T, F, O, L, A, P>(
        *search.lookup,
        search.filters,
        search.object_id,
        layout,
        paths,
    );
    assert(paths_of(locations@).len() == locations@.len());
    assert forall|i: int| 0 <= i < locations@.len() implies (#[trigger] locations@[i]).path
        == search.next@[locations@.len() - 1 - i] by {
        assert(paths_of(locations@)[i] == locations@[i].path);
    }
}

/// A search can be made, step by step or at once, wherever its questions can be asked.
pub proof fn law_every_search_can_be_made<'a, T, F, O, L, A, P>(
    search: SourceLocationIter<'a, T, F, O, L, A, P>,
) where T: Copy, L: Copy, A: Fn(&F, &O, T) -> bool, P: Fn(L, T, &O) -> Vec<String>
    requires
        forall|filetype: T| #[trigger]
            call_requires(search.lookup.is_allowed, (search.filters, search.object_id, filetype)),
        forall|filetype: T| #[trigger]
            call_requires(
                search.lookup.get_directory_paths,
                (search.layout, filetype, search.object_id),
            ),
    ensures
        call_requires(SourceLocationIter::<'a, T, F, O, L, A, P>::collect, (search,)),
        forall|current: &mut SourceLocationIter<'a, T, F, O, L, A, P>|
            *current == search ==> #[trigger] call_requires(
                SourceLocationIter::<'a, T, F, O, L, A, P>::next,
                (current,),
            ),
{
}

} // verus!
