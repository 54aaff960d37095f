use vstd::prelude::*;
use vstd::string::*;

verus! {

/// The texts of a list of strings.
pub open spec fn texts(v: Seq<String>) -> Seq<Seq<char>> {
    v.map_values(|s: String| s@)
}

/// Whether some entry of a repository list has this identifier.
pub open spec fn has_id(s: Seq<(Seq<char>, Seq<char>)>, id: Seq<char>) -> bool {
    exists|i: int| 0 <= i < s.len() && #[trigger] s[i].0 == id
}

/// No two entries share an identifier.
pub open spec fn unique_ids(s: Seq<(Seq<char>, Seq<char>)>) -> bool {
    forall|i: int, j: int| 0 <= i < j < s.len() ==> #[trigger] s[i].0 != #[trigger] s[j].0
}

/// The entries whose identifiers are not among `ids`, in their order.
pub open spec fn without(s: Seq<(Seq<char>, Seq<char>)>, ids: Seq<Seq<char>>) -> Seq<
    (Seq<char>, Seq<char>),
>
    decreases s.len(),
{
    if s.len() == 0 {
        s
    } else {
        let rest = without(s.drop_last(), ids);
        if ids.contains(s.last().0) {
            rest
        } else {
            rest.push(s.last())
        }
    }
}

/// How a repository is listed: `<id>: <location>`.
pub open spec fn listing_line(e: (Seq<char>, Seq<char>)) -> Seq<char> {
    e.0 + ": "@ + e.1
}

/// The identifiers of a repository list, in its order.
pub open spec fn ids_of(s: Seq<(Seq<char>, Seq<char>)>) -> Seq<Seq<char>> {
    s.map_values(|e: (Seq<char>, Seq<char>)| e.0)
}

/// Index of the first of `ids` that names no entry of `s`, if any.
pub open spec fn first_unknown_is(
    s: Seq<(Seq<char>, Seq<char>)>,
    ids: Seq<Seq<char>>,
    k: int,
) -> bool {
    &&& 0 <= k < ids.len()
    &&& !has_id(s, ids[k])
    &&& forall|j: int| 0 <= j < k ==> has_id(s, #[trigger] ids[j])
}

/// Every one of `ids` names an entry of `s`.
pub open spec fn all_known(s: Seq<(Seq<char>, Seq<char>)>, ids: Seq<Seq<char>>) -> bool {
    forall|j: int| 0 <= j < ids.len() ==> has_id(s, #[trigger] ids[j])
}

proof fn lemma_without(s: Seq<(Seq<char>, Seq<char>)>, ids: Seq<Seq<char>>)
    ensures
        forall|k: int|
            0 <= k < without(s, ids).len() ==> s.contains(#[trigger] without(s, ids)[k]),
        forall|k: int|
            0 <= k < without(s, ids).len() ==> !ids.contains(#[trigger] without(s, ids)[k].0),
        unique_ids(s) ==> unique_ids(without(s, ids)),
        forall|k: int| 0 <= k < s.len() && !ids.contains(s[k].0) ==> #[trigger] has_id(
            without(s, ids),
            s[k].0,
        ),
    decreases s.len(),
{
    if s.len() > 0 {
        let d = s.drop_last();
        lemma_without(d, ids);
        let rest = without(d, ids);
        assert forall|k: int| 0 <= k < rest.len() implies s.contains(#[trigger] rest[k]) by {
            let i = choose|i: int| 0 <= i < d.len() && d[i] == rest[k];
            assert(s[i] == rest[k]);
        }
        if unique_ids(s) {
            assert forall|k: int| 0 <= k < rest.len() implies #[trigger] rest[k].0 != s.last().0 by {
                let i = choose|i: int| 0 <= i < d.len() && d[i] == rest[k];
                assert(s[i] == rest[k]);
                assert(s[i].0 != s[s.len() - 1].0);
            }
            assert(unique_ids(d)) by {
                assert forall|i: int, j: int| 0 <= i < j < d.len() implies #[trigger] d[i].0
                    != #[trigger] d[j].0 by {
                    assert(d[i] == s[i] && d[j] == s[j]);
                }
            }
        }
        let w = without(s, ids);
        assert forall|k: int| 0 <= k < s.len() && !ids.contains(s[k].0) implies #[trigger] has_id(
            w,
            s[k].0,
        ) by {
            if k < s.len() - 1 {
                assert(d[k] == s[k]);
                assert(has_id(rest, d[k].0));
                let i = choose|i: int| 0 <= i < rest.len() && #[trigger] rest[i].0 == d[k].0;
                assert(w[i] == rest[i]);
            } else {
                assert(w[w.len() - 1] == s.last());
            }
        }
    }
}

/// One repository: its identifier and where it lives.
#[derive(Debug)]
pub struct Repo {
    pub id: String,
    pub location: String,
}

impl View for Repo {
    type V = (Seq<char>, Seq<char>);

    open spec fn view(&self) -> (Seq<char>, Seq<char>) {
        (self.id@, self.location@)
    }
}

impl Repo {
    fn duplicate(&self) -> (r: Repo)
        ensures
            r@ == self@,
    {
        Repo { id: self.id.clone(), location: self.location.clone() }
    }
}

/// Whether `id` is one of `ids`.
pub fn names_contain(ids: &Vec<String>, id: &String) -> (r: bool)
    ensures
        r == texts(ids@).contains(id@),
{
    let mut i: usize = 0;
    while i < ids.len()
        invariant
            i <= ids@.len(),
            forall|j: int| 0 <= j < i ==> ids@[j]@ != id@,
        decreases ids.len() - i,
    {
        if ids[i] == *id {
            assert(texts(ids@)[i as int] == id@);
            return true;
        }
        i = i + 1;
    }
    assert forall|j: int| 0 <= j < texts(ids@).len() implies texts(ids@)[j] != id@ by {
        assert(texts(ids@)[j] == ids@[j]@);
    }
    false
}

/// The repositories that a daemon knows, keyed by identifier, in the order in
/// which they were added.
#[derive(Debug)]
pub struct RepositorySet {
    repos: Vec<Repo>,
}

impl View for RepositorySet {
    type V = Seq<(Seq<char>, Seq<char>)>;

    closed spec fn view(&self) -> Seq<(Seq<char>, Seq<char>)> {
        self.repos@.map_values(|r: Repo| r@)
    }
}

impl RepositorySet {
    /// Identifiers are unique.
    pub open spec fn wf(&self) -> bool {
        unique_ids(self@)
    }

    /// A set with no repository.
    pub fn new() -> (r: RepositorySet)
        ensures
            r@ == Seq::<(Seq<char>, Seq<char>)>::empty(),
            r.wf(),
    {
        let r = RepositorySet { repos: Vec::new() };
        assert(r@ =~= Seq::<(Seq<char>, Seq<char>)>::empty());
        r
    }

    /// The number of repositories.
    pub fn len(&self) -> (r: usize)
        ensures
            r == self@.len(),
    {
        self.repos.len()
    }

    /// Where the repository with this identifier stands, if it is known.
    pub fn position(&self, id: &String) -> (r: Option<usize>)
        ensures
            r matches Some(i) ==> i < self@.len() && self@[i as int].0 == id@,
            r is None <==> !has_id(self@, id@),
    {
        let mut i: usize = 0;
        while i < self.repos.len()
            invariant
                i <= self@.len(),
                self@.len() == self.repos@.len(),
                forall|j: int| 0 <= j < i ==> self@[j].0 != id@,
            decreases self.repos.len() - i,
        {
            assert(self@[i as int] == self.repos@[i as int]@);
            if self.repos[i].id == *id {
                assert(self@[i as int].0 == id@);
                return Some(i);
            }
            i = i + 1;
        }
        None
    }

    /// Whether a repository with this identifier is known.
    pub fn contains(&self, id: &String) -> (r: bool)
        ensures
            r == has_id(self@, id@),
    {
        self.position(id).is_some()
    }

    /// The identifiers, in order.
    pub fn ids(&self) -> (r: Vec<String>)
        ensures
            texts(r@) == ids_of(self@),
    {
        let mut r: Vec<String> = Vec::new();
        let mut i: usize = 0;
        while i < self.repos.len()
            invariant
                i <= self@.len(),
                self@.len() == self.repos@.len(),
                r@.len() == i,
                forall|j: int| 0 <= j < i ==> #[trigger] r@[j]@ == self@[j].0,
            decreases self.repos.len() - i,
        {
            assert(self@[i as int] == self.repos@[i as int]@);
            r.push(self.repos[i].id.clone());
            i = i + 1;
        }
        assert(texts(r@) =~= ids_of(self@));
        r
    }

    /// One line per repository, `<id>: <location>`, in order.
    pub fn listing(&self) -> (r: Vec<String>)
        ensures
            texts(r@) == self@.map_values(|e: (Seq<char>, Seq<char>)| listing_line(e)),
    {
        proof {
            reveal_strlit(": ");
        }
        let mut r: Vec<String> = Vec::new();
        let mut i: usize = 0;
        while i < self.repos.len()
            invariant
                i <= self@.len(),
                self@.len() == self.repos@.len(),
                r@.len() == i,
                forall|j: int| 0 <= j < i ==> #[trigger] r@[j]@ == listing_line(self@[j]),
            decreases self.repos.len() - i,
        {
            assert(self@[i as int] == self.repos@[i as int]@);
            let line = self.repos[i].id.clone().concat(": ").concat(self.repos[i].location.as_str());
            r.push(line);
            i = i + 1;
        }
        assert(texts(r@) =~= self@.map_values(|e: (Seq<char>, Seq<char>)| listing_line(e)));
        r
    }

    /// An equal, separate copy.
    pub fn duplicate(&self) -> (r: RepositorySet)
        ensures
            r@ == self@,
    {
        let mut repos: Vec<Repo> = Vec::new();
        let mut i: usize = 0;
        while i < self.repos.len()
            invariant
                i <= self@.len(),
                self@.len() == self.repos@.len(),
                repos@.len() == i,
                forall|j: int| 0 <= j < i ==> #[trigger] repos@[j]@ == self@[j],
            decreases self.repos.len() - i,
        {
            assert(self@[i as int] == self.repos@[i as int]@);
            repos.push(self.repos[i].duplicate());
            i = i + 1;
        }
        let r = RepositorySet { repos };
        assert(r@ =~= self@);
        r
    }

    /// Appends a repository whose identifier is new.
    pub(crate) fn push_new(&mut self, id: String, location: String)
        requires
            old(self).wf(),
            !has_id(old(self)@, id@),
        ensures
            final(self)@ == old(self)@.push((id@, location@)),
            final(self).wf(),
    {
        self.repos.push(Repo { id, location });
        assert(self@ =~= old(self)@.push((id@, location@)));
    }

    /// Drops every repository whose identifier is among `ids`, keeping the order
    /// of the rest.
    pub(crate) fn remove_all(&mut self, ids: &Vec<String>)
        requires
            old(self).wf(),
        ensures
            final(self)@ == without(old(self)@, texts(ids@)),
            final(self).wf(),
    {
        let ghost s = self@;
        let ghost names = texts(ids@);
        let mut kept: Vec<Repo> = Vec::new();
        let mut i: usize = 0;
        while i < self.repos.len()
            invariant
                i <= s.len(),
                s == self@,
                s.len() == self.repos@.len(),
                names == texts(ids@),
                kept@.map_values(|r: Repo| r@) == without(s.subrange(0, i as int), names),
            decreases self.repos.len() - i,
        {
            let ghost pre = s.subrange(0, i as int);
            let ghost next = s.subrange(0, i as int + 1);
            assert(next.drop_last() =~= pre);
            assert(next.last() == s[i as int]);
            assert(s[i as int] == self.repos@[i as int]@);
            if !names_contain(ids, &self.repos[i].id) {
                let ghost before = kept@;
                kept.push(self.repos[i].duplicate());
                assert(kept@.map_values(|r: Repo| r@) =~= before.map_values(|r: Repo| r@).push(
                    s[i as int],
                ));
            }
            i = i + 1;
        }
        assert(s.subrange(0, i as int) =~= s);
        proof {
            lemma_without(s, names);
        }
        self.repos = kept;
    }
}

} // verus!
