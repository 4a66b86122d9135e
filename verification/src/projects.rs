//! The project store: owns every `MusicProject` and its embedded tracks.

use vstd::prelude::*;
use crate::ids::IdAllocator;
use crate::types::{MusicProject, Track};
use crate::types::clone_tracks;

verus! {

/// Does the sequence of identities contain one spelled `x`?
pub open spec fn contains_ident(s: Seq<String>, x: Seq<char>) -> bool {
    exists|i: int| 0 <= i < s.len() && s[i]@ == x
}

/// The contributor list after an idempotent add: unchanged when an entry
/// already spells the same identity, appended otherwise.
pub open spec fn add_contributor_model(s: Seq<String>, c: String) -> Seq<String> {
    if contains_ident(s, c@) {
        s
    } else {
        s.push(c)
    }
}

/// The track list after removing every track whose identifier is
/// `track_id`, keeping the order of the rest.
pub open spec fn tracks_without(s: Seq<Track>, track_id: u64) -> Seq<Track>
    decreases s.len(),
{
    if s.len() == 0 {
        Seq::empty()
    } else {
        let rest = tracks_without(s.drop_last(), track_id);
        if s.last().id == track_id {
            rest
        } else {
            rest.push(s.last())
        }
    }
}

/// Owns the projects; identifiers come from its own allocator.
pub struct ProjectStore {
    pub projects: Vec<MusicProject>,
    pub ids: IdAllocator,
}

impl ProjectStore {
    /// Store invariant: every identifier was issued by the allocator
    /// (so it is at least 1 and below the counter), identifiers are
    /// pairwise distinct, and each project is well formed.
    pub open spec fn wf(self) -> bool {
        &&& self.ids.wf()
        &&& forall|i: int|
            0 <= i < self.projects@.len() ==> 1 <= (#[trigger] self.projects@[i]).id
                < self.ids.next_id
        &&& forall|i: int, j: int|
            #![trigger self.projects@[i], self.projects@[j]]
            0 <= i < j < self.projects@.len() ==> self.projects@[i].id != self.projects@[j].id
        &&& forall|i: int| 0 <= i < self.projects@.len() ==> (#[trigger] self.projects@[i]).wf()
    }

    /// Is some project stored under this identifier?
    pub open spec fn has_project(self, id: u64) -> bool {
        exists|i: int| 0 <= i < self.projects@.len() && self.projects@[i].id == id
    }

    /// The position of the project stored under this identifier.
    pub open spec fn project_idx(self, id: u64) -> int {
        choose|i: int| 0 <= i < self.projects@.len() && self.projects@[i].id == id
    }

    /// The project stored under this identifier.
    pub open spec fn project_at(self, id: u64) -> MusicProject {
        self.projects@[self.project_idx(id)]
    }

    /// An empty store.
    pub fn new() -> (r: Self)
        ensures
            r.wf(),
            r.projects@.len() == 0,
            r.ids.next_id == 1,
    {
        ProjectStore { projects: Vec::new(), ids: IdAllocator::new() }
    }

    /// Locate a project by identifier.
    fn find_project(&self, project_id: u64) -> (r: Option<usize>)
        requires
            self.wf(),
        ensures
            match r {
                Some(i) => i < self.projects@.len() && self.projects@[i as int].id == project_id
                    && i as int == self.project_idx(project_id) && self.has_project(project_id),
                None => !self.has_project(project_id),
            },
    {
        let mut i: usize = 0;
        while i < self.projects.len()
            invariant
                self.wf(),
                i <= self.projects@.len(),
                forall|j: int| 0 <= j < i ==> (#[trigger] self.projects@[j]).id != project_id,
            decreases self.projects@.len() - i,
        {
            if self.projects[i].id == project_id {
                proof {
                    assert(self.has_project(project_id));
                    let k = self.project_idx(project_id);
                    assert(0 <= k < self.projects@.len() && self.projects@[k].id == project_id);
                    if k < i as int {
                        assert(self.projects@[k].id != self.projects@[i as int].id);
                    } else if k > i as int {
                        assert(self.projects@[i as int].id != self.projects@[k].id);
                    }
                }
                return Some(i);
            }
            i = i + 1;
        }
        None
    }

    /// Allocate an identifier and insert a fresh project with no
    /// contributors and no tracks.  Always succeeds; the identifier is
    /// distinct from that of every stored project.
    pub fn create_project(&mut self, title: String, description: String, owner: String) -> (id:
        u64)
        requires
            old(self).wf(),
            old(self).ids.next_id < u64::MAX,
        ensures
            final(self).wf(),
            id == old(self).ids.next_id,
            final(self).ids.next_id == old(self).ids.next_id + 1,
            forall|i: int|
                0 <= i < old(self).projects@.len() ==> (#[trigger] old(self).projects@[i]).id
                    != id,
            final(self).projects@.len() == old(self).projects@.len() + 1,
            final(self).projects@.subrange(0, old(self).projects@.len() as int) == old(
                self,
            ).projects@,
            ({
                let p = final(self).projects@.last();
                &&& p.id == id
                &&& p.title == title
                &&& p.description == description
                &&& p.owner == owner
                &&& p.contributors@.len() == 0
                &&& p.tracks@.len() == 0
            }),
            final(self).has_project(id),
    {
        let id = self.ids.next();
        let project = MusicProject {
            id,
            title,
            description,
            owner,
            contributors: Vec::new(),
            tracks: Vec::new(),
        };
        self.projects.push(project);
        proof {
            let n = old(self).projects@.len() as int;
            assert(self.projects@.subrange(0, n) =~= old(self).projects@);
            assert(self.projects@[n].id == id);
            assert(final(self).has_project(id));
        }
        id
    }

    /// Append a track to the named project.  The track's identifier is
    /// the caller-supplied timestamp; `false` exactly when the project
    /// is unknown, in which case nothing changes.
    pub fn add_track(
        &mut self,
        project_id: u64,
        name: String,
        ipfs_hash: String,
        uploaded_by: String,
        timestamp: u64,
    ) -> (ok: bool)
        requires
            old(self).wf(),
        ensures
            final(self).wf(),
            ok == old(self).has_project(project_id),
            !ok ==> *final(self) == *old(self),
            ok ==> ({
                let idx = old(self).project_idx(project_id);
                let p0 = old(self).projects@[idx];
                let p1 = final(self).projects@[idx];
                &&& final(self).ids == old(self).ids
                &&& final(self).projects@.len() == old(self).projects@.len()
                &&& (forall|j: int|
                    0 <= j < old(self).projects@.len() && j != idx ==> final(self).projects@[j]
                        == old(self).projects@[j])
                &&& p1.id == p0.id
                &&& p1.title == p0.title
                &&& p1.description == p0.description
                &&& p1.owner == p0.owner
                &&& p1.contributors == p0.contributors
                &&& p1.tracks@ == p0.tracks@.push(
                    (Track { id: timestamp, name, ipfs_hash, uploaded_by, timestamp }),
                )
            }),
    {
        match self.find_project(project_id) {
            Some(i) => {
                let track = Track { id: timestamp, name, ipfs_hash, uploaded_by, timestamp };
                self.projects[i].tracks.push(track);
                true
            },
            None => false,
        }
    }

    /// Add a contributor idempotently: no second entry is made for an
    /// identity already listed.  `false` exactly when the project is
    /// unknown, in which case nothing changes.
    pub fn add_contributor(&mut self, project_id: u64, contributor: String) -> (ok: bool)
        requires
            old(self).wf(),
        ensures
            final(self).wf(),
            ok == old(self).has_project(project_id),
            !ok ==> *final(self) == *old(self),
            ok ==> ({
                let idx = old(self).project_idx(project_id);
                let p0 = old(self).projects@[idx];
                let p1 = final(self).projects@[idx];
                &&& final(self).ids == old(self).ids
                &&& final(self).projects@.len() == old(self).projects@.len()
                &&& (forall|j: int|
                    0 <= j < old(self).projects@.len() && j != idx ==> final(self).projects@[j]
                        == old(self).projects@[j])
                &&& p1.id == p0.id
                &&& p1.title == p0.title
                &&& p1.description == p0.description
                &&& p1.owner == p0.owner
                &&& p1.tracks == p0.tracks
                &&& p1.contributors@ == add_contributor_model(p0.contributors@, contributor)
            }),
    {
        match self.find_project(project_id) {
            Some(i) => {
                if !contains_string(&self.projects[i].contributors, &contributor) {
                    self.projects[i].contributors.push(contributor);
                }
                true
            },
            None => false,
        }
    }

    /// Remove every track of the named project whose identifier is
    /// `track_id`; removing none still succeeds.  `false` exactly when
    /// the project is unknown, in which case nothing changes.
    pub fn remove_track(&mut self, project_id: u64, track_id: u64) -> (ok: bool)
        requires
            old(self).wf(),
        ensures
            final(self).wf(),
            ok == old(self).has_project(project_id),
            !ok ==> *final(self) == *old(self),
            ok ==> ({
                let idx = old(self).project_idx(project_id);
                let p0 = old(self).projects@[idx];
                let p1 = final(self).projects@[idx];
                &&& final(self).ids == old(self).ids
                &&& final(self).projects@.len() == old(self).projects@.len()
                &&& (forall|j: int|
                    0 <= j < old(self).projects@.len() && j != idx ==> final(self).projects@[j]
                        == old(self).projects@[j])
                &&& p1.id == p0.id
                &&& p1.title == p0.title
                &&& p1.description == p0.description
                &&& p1.owner == p0.owner
                &&& p1.contributors == p0.contributors
                &&& p1.tracks@ == tracks_without(p0.tracks@, track_id)
            }),
    {
        match self.find_project(project_id) {
            Some(i) => {
                let kept = filter_tracks(&self.projects[i].tracks, track_id);
                self.projects[i].tracks = kept;
                true
            },
            None => false,
        }
    }

    /// Read a copy of the named project, if it is stored.
    pub fn get_project(&self, project_id: u64) -> (r: Option<MusicProject>)
        requires
            self.wf(),
        ensures
            match r {
                Some(p) => self.has_project(project_id) && p.equiv(self.project_at(project_id)),
                None => !self.has_project(project_id),
            },
    {
        match self.find_project(project_id) {
            Some(i) => Some(self.projects[i].clone()),
            None => None,
        }
    }

    /// Copies of all projects, in insertion order.
    pub fn list_projects(&self) -> (r: Vec<MusicProject>)
        requires
            self.wf(),
        ensures
            r@.len() == self.projects@.len(),
            forall|i: int|
                0 <= i < r@.len() ==> (#[trigger] r@[i]).equiv(self.projects@[i]),
    {
        let mut r: Vec<MusicProject> = Vec::new();
        let mut i: usize = 0;
        while i < self.projects.len()
            invariant
                i <= self.projects@.len(),
                r@.len() == i,
                forall|j: int| 0 <= j < i ==> (#[trigger] r@[j]).equiv(self.projects@[j]),
            decreases self.projects@.len() - i,
        {
            r.push(self.projects[i].clone());
            i = i + 1;
        }
        r
    }

    /// The tracks of the named project, empty when it is unknown.
    pub fn get_project_tracks(&self, project_id: u64) -> (r: Vec<Track>)
        requires
            self.wf(),
        ensures
            self.has_project(project_id) ==> r@ == self.project_at(project_id).tracks@,
            !self.has_project(project_id) ==> r@.len() == 0,
    {
        match self.find_project(project_id) {
            Some(i) => clone_tracks(&self.projects[i].tracks),
            None => Vec::new(),
        }
    }
}

/// Does the vector contain a string spelling the same identity as `x`?
fn contains_string(v: &Vec<String>, x: &String) -> (r: bool)
    ensures
        r == contains_ident(v@, x@),
{
    let mut i: usize = 0;
    while i < v.len()
        invariant
            i <= v@.len(),
            forall|j: int| 0 <= j < i ==> (#[trigger] v@[j])@ != x@,
        decreases v@.len() - i,
    {
        if v[i] == *x {
            return true;
        }
        i = i + 1;
    }
    false
}

/// The tracks of `v` whose identifier is not `track_id`, in order.
fn filter_tracks(v: &Vec<Track>, track_id: u64) -> (r: Vec<Track>)
    ensures
        r@ == tracks_without(v@, track_id),
{
    let mut r: Vec<Track> = Vec::new();
    let mut i: usize = 0;
    while i < v.len()
        invariant
            i <= v@.len(),
            r@ == tracks_without(v@.subrange(0, i as int), track_id),
        decreases v@.len() - i,
    {
        proof {
            let sub1 = v@.subrange(0, i as int + 1);
            assert(sub1.drop_last() =~= v@.subrange(0, i as int));
            assert(sub1.last() == v@[i as int]);
        }
        if v[i].id != track_id {
            r.push(v[i].clone());
        }
        i = i + 1;
    }
    proof {
        assert(v@.subrange(0, v@.len() as int) =~= v@);
    }
    r
}

} // verus!
