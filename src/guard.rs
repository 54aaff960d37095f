use vstd::prelude::*;
use vstd::string::*;

use crate::repos::{
    all_known, first_unknown_is, has_id, ids_of, listing_line, texts, unique_ids, without,
    RepositorySet,
};

verus! {

/// How the repository engine failed.
#[derive(Debug, Clone, Copy, PartialEq, Eq)]
pub enum EngineErrorKind {
    /// The engine refused the request as given (a bad name, a bad location).
    Config,
    /// Input/output or another unexpected failure inside the engine.
    Other,
}

/// An error reported by the repository engine.
#[derive(Debug)]
pub struct EngineError {
    pub kind: EngineErrorKind,
    pub message: String,
}

/// The class of a failed call, as its caller sees it.
#[derive(Debug, Clone, Copy, PartialEq, Eq)]
pub enum ErrorKind {
    /// The request was rejected: a caller error, not to be retried as it is.
    PreconditionFailed,
    /// Input/output or an unexpected engine failure: a retry may succeed.
    InternalFailure,
}

/// The error that a service call returns: its class and a message.
#[derive(Debug)]
pub struct ServiceError {
    pub kind: ErrorKind,
    pub message: String,
}

/// Engine rejections are the caller's fault; anything else is internal.
pub open spec fn class_of(k: EngineErrorKind) -> ErrorKind {
    match k {
        EngineErrorKind::Config => ErrorKind::PreconditionFailed,
        EngineErrorKind::Other => ErrorKind::InternalFailure,
    }
}

/// Message of the error for an identifier that is already taken.
pub open spec fn exists_message(id: Seq<char>) -> Seq<char> {
    "repo already exists: "@ + id
}

/// Message of the error for an identifier that names no repository.
pub open spec fn unknown_message(id: Seq<char>) -> Seq<char> {
    "nonexistent repo: "@ + id
}

/// Whether `e` is the error that the engine failure `f` is reported as.
pub open spec fn reports(e: ServiceError, f: EngineError) -> bool {
    e.kind == class_of(f.kind) && e.message@ == f.message@
}

/// Turns an engine error into the error of the call that met it, keeping its message.
pub fn classify(e: EngineError) -> (r: ServiceError)
    ensures
        r.kind == class_of(e.kind),
        r.message@ == e.message@,
{
    let kind = match e.kind {
        EngineErrorKind::Config => ErrorKind::PreconditionFailed,
        EngineErrorKind::Other => ErrorKind::InternalFailure,
    };
    ServiceError { kind, message: e.message }
}

fn precondition_failed(prefix: &str, id: &String) -> (r: ServiceError)
    ensures
        r.kind == ErrorKind::PreconditionFailed,
        r.message@ == prefix@ + id@,
{
    ServiceError {
        kind: ErrorKind::PreconditionFailed,
        message: String::from_str(prefix).concat(id.as_str()),
    }
}

/// The daemon's repository configuration: the state that writers change,
/// and the snapshot last published for readers.
///
/// Every change goes through `&mut self`, so no reader ever sees a state
/// between the old one and the new one; a failed change publishes nothing.
#[derive(Debug)]
pub struct ConfigGuard {
    current: RepositorySet,
    published: RepositorySet,
}

impl ConfigGuard {
    /// The repositories, in order.
    pub closed spec fn state(&self) -> Seq<(Seq<char>, Seq<char>)> {
        self.current@
    }

    /// The repositories that readers see.
    pub closed spec fn snapshot(&self) -> Seq<(Seq<char>, Seq<char>)> {
        self.published@
    }

    /// Identifiers are unique, and the published snapshot is the state.
    pub closed spec fn wf(&self) -> bool {
        self.current.wf() && self.published@ == self.current@
    }

    /// A guard over the configuration that the daemon starts with.
    pub fn new(initial: RepositorySet) -> (r: ConfigGuard)
        requires
            initial.wf(),
        ensures
            r.wf(),
            r.state() == initial@,
            r.snapshot() == initial@,
    {
        let published = initial.duplicate();
        ConfigGuard { current: initial, published }
    }

    /// The published snapshot, as a copy of its own.
    pub fn read(&self) -> (r: RepositorySet)
        requires
            self.wf(),
        ensures
            r@ == self.snapshot(),
            r@ == self.state(),
            r.wf(),
    {
        self.published.duplicate()
    }

    /// Makes the state the published snapshot.
    fn publish(&mut self)
        requires
            old(self).current.wf(),
        ensures
            final(self).wf(),
            final(self).state() == old(self).state(),
    {
        self.published = self.current.duplicate();
    }

    /// Every repository as `<id>: <location>`, in order.
    pub fn list_repos(&self) -> (r: Vec<String>)
        requires
            self.wf(),
        ensures
            texts(r@) == self.state().map_values(|e: (Seq<char>, Seq<char>)| listing_line(e)),
    {
        self.published.listing()
    }

    /// Whether a repository may be added under `name`: it must be new.
    pub fn add_precheck(&self, name: &String) -> (r: Result<(), ServiceError>)
        requires
            self.wf(),
        ensures
            r is Ok <==> !has_id(self.state(), name@),
            r matches Err(e) ==> e.kind == ErrorKind::PreconditionFailed && e.message@
                == exists_message(name@),
    {
        if self.current.contains(name) {
            Err(precondition_failed("repo already exists: ", name))
        } else {
            Ok(())
        }
    }

    /// Adds repository `name` at `uri`, given the engine's verdict on it.
    ///
    /// A taken name is refused whatever the engine said; an engine failure is
    /// reported by class. Only on success does the state change, and then the
    /// new repository comes last.
    pub fn add_repo(&mut self, name: String, uri: String, engine: Result<(), EngineError>) -> (r:
        Result<String, ServiceError>)
        requires
            old(self).wf(),
        ensures
            final(self).wf(),
            has_id(old(self).state(), name@) ==> (r matches Err(e) && e.kind
                == ErrorKind::PreconditionFailed && e.message@ == exists_message(name@)),
            !has_id(old(self).state(), name@) ==> match engine {
                Err(f) => r matches Err(e) && reports(e, f),
                Ok(_) => r matches Ok(n) && n@ == name@,
            },
            r is Ok ==> final(self).state() == old(self).state().push((name@, uri@)),
            r is Err ==> final(self).state() == old(self).state(),
    {
        if let Err(e) = self.add_precheck(&name) {
            return Err(e);
        }
        match engine {
            Err(f) => Err(classify(f)),
            Ok(()) => {
                let reply = name.clone();
                self.current.push_new(name, uri);
                self.publish();
                Ok(reply)
            },
        }
    }

    /// Where the first of `ids` that names no repository stands, if any does.
    pub fn first_unknown(&self, ids: &Vec<String>) -> (r: Option<usize>)
        requires
            self.wf(),
        ensures
            r matches Some(k) ==> first_unknown_is(self.state(), texts(ids@), k as int),
            r is None <==> all_known(self.state(), texts(ids@)),
    {
        let mut k: usize = 0;
        while k < ids.len()
            invariant
                k <= ids@.len(),
                forall|j: int| 0 <= j < k ==> has_id(self.state(), #[trigger] texts(ids@)[j]),
            decreases ids.len() - k,
        {
            if !self.current.contains(&ids[k]) {
                assert(texts(ids@)[k as int] == ids@[k as int]@);
                return Some(k);
            }
            assert(texts(ids@)[k as int] == ids@[k as int]@);
            k = k + 1;
        }
        None
    }

    /// Whether `ids` may be removed: each must name a repository.
    pub fn remove_precheck(&self, ids: &Vec<String>) -> (r: Result<(), ServiceError>)
        requires
            self.wf(),
        ensures
            r is Ok <==> all_known(self.state(), texts(ids@)),
            r matches Err(e) ==> e.kind == ErrorKind::PreconditionFailed && exists|k: int|
                first_unknown_is(self.state(), texts(ids@), k) && e.message@ == unknown_message(
                    texts(ids@)[k],
                ),
    {
        match self.first_unknown(ids) {
            Some(k) => {
                assert(texts(ids@)[k as int] == ids@[k as int]@);
                Err(precondition_failed("nonexistent repo: ", &ids[k]))
            },
            None => Ok(()),
        }
    }

    /// Removes the repositories `ids`, given the engine's verdict.
    ///
    /// An unknown identifier is refused and nothing is removed. On success
    /// the other repositories keep their order and the ids are handed back.
    pub fn remove_repos(&mut self, ids: Vec<String>, engine: Result<(), EngineError>) -> (r:
        Result<Vec<String>, ServiceError>)
        requires
            old(self).wf(),
        ensures
            final(self).wf(),
            !all_known(old(self).state(), texts(ids@)) ==> (r matches Err(e) && e.kind
                == ErrorKind::PreconditionFailed && exists|k: int|
                first_unknown_is(old(self).state(), texts(ids@), k) && e.message@
                == unknown_message(texts(ids@)[k])),
            all_known(old(self).state(), texts(ids@)) ==> match engine {
                Err(f) => r matches Err(e) && reports(e, f),
                Ok(_) => r matches Ok(v) && texts(v@) == texts(ids@),
            },
            r is Ok ==> final(self).state() == without(old(self).state(), texts(ids@)),
            r is Err ==> final(self).state() == old(self).state(),
    {
        if let Err(e) = self.remove_precheck(&ids) {
            return Err(e);
        }
        match engine {
            Err(f) => Err(classify(f)),
            Ok(()) => {
                self.current.remove_all(&ids);
                self.publish();
                Ok(ids)
            },
        }
    }

    /// Creates repository `name`; on success the engine reports where it lives.
    pub fn create_repo(&mut self, name: String, engine: Result<String, EngineError>) -> (r: Result<
        String,
        ServiceError,
    >)
        requires
            old(self).wf(),
        ensures
            final(self).wf(),
            has_id(old(self).state(), name@) ==> (r matches Err(e) && e.kind
                == ErrorKind::PreconditionFailed && e.message@ == exists_message(name@)
                && final(self).state() == old(self).state()),
            !has_id(old(self).state(), name@) ==> match engine {
                Err(f) => r matches Err(e) && reports(e, f) && final(self).state() == old(
                    self,
                ).state(),
                Ok(loc) => r matches Ok(n) && n@ == name@ && final(self).state() == old(
                    self,
                ).state().push((name@, loc@)),
            },
    {
        if let Err(e) = self.add_precheck(&name) {
            return Err(e);
        }
        match engine {
            Err(f) => Err(classify(f)),
            Ok(location) => {
                let reply = name.clone();
                self.current.push_new(name, location);
                self.publish();
                Ok(reply)
            },
        }
    }

    /// The repositories that a sync of `ids` covers: all of them, in order,
    /// where `ids` is empty; else `ids`, each of which must be known.
    pub fn sync_targets(&self, ids: &Vec<String>) -> (r: Result<Vec<String>, ServiceError>)
        requires
            self.wf(),
        ensures
            ids@.len() == 0 ==> (r matches Ok(v) && texts(v@) == ids_of(self.state())),
            ids@.len() > 0 && all_known(self.state(), texts(ids@)) ==> (r matches Ok(v) && texts(
                v@,
            ) == texts(ids@)),
            ids@.len() > 0 && !all_known(self.state(), texts(ids@)) ==> (r matches Err(e)
                && e.kind == ErrorKind::PreconditionFailed && exists|k: int|
                first_unknown_is(self.state(), texts(ids@), k) && e.message@ == unknown_message(
                    texts(ids@)[k],
                )),
    {
        if ids.len() == 0 {
            return Ok(self.current.ids());
        }
        match self.remove_precheck(ids) {
            Err(e) => Err(e),
            Ok(()) => {
                let mut v: Vec<String> = Vec::new();
                let mut i: usize = 0;
                while i < ids.len()
                    invariant
                        i <= ids@.len(),
                        v@.len() == i,
                        forall|j: int| 0 <= j < i ==> #[trigger] v@[j]@ == ids@[j]@,
                    decreases ids.len() - i,
                {
                    v.push(ids[i].clone());
                    i = i + 1;
                }
                assert(texts(v@) =~= texts(ids@));
                Ok(v)
            },
        }
    }

    /// Syncs the repositories that `ids` covers, given the engine's verdict.
    ///
    /// The set of repositories stays as it is; on success the synced
    /// identifiers are handed back.
    pub fn sync_repos(&mut self, ids: Vec<String>, engine: Result<(), EngineError>) -> (r: Result<
        Vec<String>,
        ServiceError,
    >)
        requires
            old(self).wf(),
        ensures
            final(self).wf(),
            final(self).state() == old(self).state(),
            ids@.len() > 0 && !all_known(old(self).state(), texts(ids@)) ==> (r matches Err(e)
                && e.kind == ErrorKind::PreconditionFailed && exists|k: int|
                first_unknown_is(old(self).state(), texts(ids@), k) && e.message@
                == unknown_message(texts(ids@)[k])),
            ids@.len() == 0 || all_known(old(self).state(), texts(ids@)) ==> match engine {
                Err(f) => r matches Err(e) && reports(e, f),
                Ok(_) => r matches Ok(v) && (if ids@.len() == 0 {
                    texts(v@) == ids_of(old(self).state())
                } else {
                    texts(v@) == texts(ids@)
                }),
            },
    {
        let targets = self.sync_targets(&ids);
        match targets {
            Err(e) => Err(e),
            Ok(v) => match engine {
                Err(f) => Err(classify(f)),
                Ok(()) => {
                    self.publish();
                    Ok(v)
                },
            },
        }
    }
}

/// Readers never see a half-made change: whenever the guard is well formed,
/// which every operation preserves, the published snapshot is exactly the state.
pub proof fn lemma_snapshot_is_state(g: &ConfigGuard)
    requires
        g.wf(),
    ensures
        g.snapshot() == g.state(),
{
}

/// Adding a name twice: once the first add of `name` at `first` has succeeded,
/// the name is taken, so a second add of it is refused whatever its location,
/// and the one entry under `name` keeps the first location.
pub proof fn lemma_second_add_refused(
    s: Seq<(Seq<char>, Seq<char>)>,
    name: Seq<char>,
    first: Seq<char>,
)
    requires
        unique_ids(s),
        !has_id(s, name),
    ensures
        has_id(s.push((name, first)), name),
        unique_ids(s.push((name, first))),
        forall|i: int|
            0 <= i < s.len() + 1 && (#[trigger] s.push((name, first))[i]).0 == name ==> s.push(
                (name, first),
            )[i].1 == first,
{
    let t = s.push((name, first));
    assert(t[s.len() as int].0 == name);
    assert forall|i: int| 0 <= i < s.len() + 1 && (#[trigger] t[i]).0 == name implies t[i].1
        == first by {
        if i < s.len() {
            assert(t[i] == s[i]);
        }
    }
    assert forall|i: int, j: int| 0 <= i < j < t.len() implies #[trigger] t[i].0
        != #[trigger] t[j].0 by {
        assert(t[i] == s[i]);
        if j < s.len() {
            assert(t[j] == s[j]);
        }
    }
}

/// Removing an identifier that names no repository is refused: not every
/// requested identifier is known, so the state is left as it was.
pub proof fn lemma_remove_unknown_refused(
    s: Seq<(Seq<char>, Seq<char>)>,
    ids: Seq<Seq<char>>,
    k: int,
)
    requires
        0 <= k < ids.len(),
        !has_id(s, ids[k]),
    ensures
        !all_known(s, ids),
{
}

} // verus!
