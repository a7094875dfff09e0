//! The service object: the identity registry and the profile, course and job
//! stores, with the operations that read and change them.
use vstd::prelude::*;
use crate::identity::Identity;
use crate::records::{
    default_profile, identities_view, new_posting, new_profile, texts_view, with_applicant, Course,
    Jobs, PostingView, Profile, ProfileView,
};
use crate::roles::{role_named, Roles};
use crate::table::{
    find_identity, find_text, has_key, keys_unique, lemma_found, lookup, pairs_view, put,
    put_identity, put_text,
};
use crate::text::{contains_text, decode_utf8, lower_of, lowercase, occurs_in, utf8_text};

verus! {

/// Why an operation failed.
#[derive(Debug, Clone, Copy, PartialEq, Eq, Structural)]
pub enum StoreError {
    /// The caller's role is not `TRAINER`.
    NotTrainer,
    /// The random bytes meant for a fresh id are not well-formed UTF-8.
    MalformedId,
    /// No course has the given id.
    NoSuchCourse,
}

/// The four stores of the platform. Each is a list of entries with distinct
/// keys, kept in the order in which each key was first stored; that is also
/// the order in which `search` looks at profiles.
pub struct Backend {
    ids: Vec<(String, Identity)>,
    profiles: Vec<(Identity, Profile)>,
    courses: Vec<(String, Course)>,
    jobs: Vec<(Identity, Jobs)>,
}

/// The value of the stores.
pub struct BackendView {
    /// Public id to caller.
    pub ids: Seq<(Seq<char>, Seq<u8>)>,
    /// Caller to profile.
    pub profiles: Seq<(Seq<u8>, ProfileView)>,
    /// Course id to course.
    pub courses: Seq<(Seq<char>, PostingView)>,
    /// Creator to job posting.
    pub jobs: Seq<(Seq<u8>, PostingView)>,
}

impl View for Backend {
    type V = BackendView;

    closed spec fn view(&self) -> BackendView {
        BackendView {
            ids: pairs_view(self.ids@),
            profiles: pairs_view(self.profiles@),
            courses: pairs_view(self.courses@),
            jobs: pairs_view(self.jobs@),
        }
    }
}

/// The profile of `who`, or the default profile where it has none.
pub open spec fn profile_or_default(s: Seq<(Seq<u8>, ProfileView)>, who: Seq<u8>) -> ProfileView {
    match lookup(s, who) {
        Some(p) => p,
        None => default_profile(),
    }
}

/// The profile registered under the public id `uid`, or the default profile
/// where either lookup misses.
pub open spec fn profile_by_public_id(v: BackendView, uid: Seq<char>) -> ProfileView {
    match lookup(v.ids, uid) {
        Some(who) => profile_or_default(v.profiles, who),
        None => default_profile(),
    }
}

/// The role that decides what `who` may create.
pub open spec fn role_of(v: BackendView, who: Seq<u8>) -> Roles {
    profile_or_default(v.profiles, who).role
}

/// A store after `who` applies to the entry under `k`: appended to its
/// applicants where there is one, unchanged otherwise.
pub open spec fn apply_to<K>(s: Seq<(K, PostingView)>, k: K, who: Seq<u8>) -> Seq<(K, PostingView)> {
    match lookup(s, k) {
        Some(p) => put(s, k, with_applicant(p, who)),
        None => s,
    }
}

/// Whether a profile whose lower-case name is `name`, lower-case description
/// is `desc` and lower-case keywords are `kws` answers the lower-case query
/// `q`: the query occurs in the name or in the description, or equals a
/// keyword.
pub open spec fn fields_match(q: Seq<char>, name: Seq<char>, desc: Seq<char>, kws: Seq<Seq<char>>) -> bool {
    occurs_in(q, name) || occurs_in(q, desc) || exists|j: int| 0 <= j < kws.len() && kws[j] == q
}

/// Whether profile `p` answers the lower-case query `q`, case being ignored.
pub open spec fn profile_matches(p: ProfileView, q: Seq<char>) -> bool {
    fields_match(
        q,
        lower_of(p.fullname),
        lower_of(p.description),
        p.keywords.map_values(|k: Seq<char>| lower_of(k)),
    )
}

/// The entry at `i` is the first in `s` whose profile answers `q`.
pub open spec fn first_match_at(s: Seq<(Seq<u8>, ProfileView)>, q: Seq<char>, i: int) -> bool {
    &&& 0 <= i < s.len()
    &&& profile_matches(s[i].1, q)
    &&& forall|j: int| 0 <= j < i ==> !profile_matches(#[trigger] s[j].1, q)
}

/// Whether a profile with the lower-case `name`, `desc` and `keywords`
/// answers the lower-case query `query`.
pub fn matches_lowered(query: &String, name: &String, desc: &String, keywords: &Vec<String>) -> (r: bool)
    ensures
        r == fields_match(query@, name@, desc@, texts_view(keywords@)),
{
    if contains_text(name.as_str(), query.as_str()) || contains_text(desc.as_str(), query.as_str()) {
        return true;
    }
    let mut j: usize = 0;
    while j < keywords.len()
        invariant
            j <= keywords@.len(),
            forall|m: int| 0 <= m < j ==> (#[trigger] keywords@[m])@ != query@,
        decreases keywords@.len() - j,
    {
        if keywords[j] == *query {
            assert(texts_view(keywords@)[j as int] == query@);
            return true;
        }
        j = j + 1;
    }
    assert forall|m: int| 0 <= m < texts_view(keywords@).len() implies texts_view(keywords@)[m] != query@ by {
        assert(keywords@[m]@ != query@);
    }
    false
}

/// The lower-case form of each text in a list.
fn lower_all(v: &Vec<String>) -> (r: Vec<String>)
    ensures
        texts_view(r@) == texts_view(v@).map_values(|k: Seq<char>| lower_of(k)),
{
    let mut r: Vec<String> = Vec::new();
    let mut i: usize = 0;
    while i < v.len()
        invariant
            i <= v@.len(),
            r@.len() == i,
            forall|j: int| 0 <= j < i ==> (#[trigger] r@[j])@ == lower_of(v@[j]@),
        decreases v@.len() - i,
    {
        r.push(lowercase(v[i].as_str()));
        i = i + 1;
    }
    assert(texts_view(r@) == texts_view(v@).map_values(|k: Seq<char>| lower_of(k)));
    r
}

impl Backend {
    /// Every store keeps its keys distinct.
    pub open spec fn wf(&self) -> bool {
        &&& keys_unique(self@.ids)
        &&& keys_unique(self@.profiles)
        &&& keys_unique(self@.courses)
        &&& keys_unique(self@.jobs)
    }

    /// Empty stores.
    pub fn new() -> (r: Backend)
        ensures
            r.wf(),
            r@.ids.len() == 0,
            r@.profiles.len() == 0,
            r@.courses.len() == 0,
            r@.jobs.len() == 0,
    {
        Backend { ids: Vec::new(), profiles: Vec::new(), courses: Vec::new(), jobs: Vec::new() }
    }

    /// Creates the profile of `caller` under the public id `id`: registers
    /// `id` for `caller` and stores the new profile, replacing any profile
    /// `caller` had. Returns the new profile.
    pub fn create_user_with_id(
        &mut self,
        caller: Identity,
        id: String,
        fullname: String,
        email: String,
        role: &str,
    ) -> (r: Profile)
        requires
            old(self).wf(),
        ensures
            final(self).wf(),
            r@ == new_profile(id@, fullname@, email@, role_named(role@)),
            final(self)@.ids == put(old(self)@.ids, id@, caller@),
            final(self)@.profiles == put(old(self)@.profiles, caller@, r@),
            final(self)@.courses == old(self)@.courses,
            final(self)@.jobs == old(self)@.jobs,
    {
        let r = Profile {
            id: id.clone(),
            fullname,
            email,
            role: Roles::from_str(role),
            ..Profile::default()
        };
        let stored = r.duplicate();
        put_text(&mut self.ids, id, caller.duplicate());
        put_identity(&mut self.profiles, caller, stored);
        r
    }

    /// Creates the profile of `caller`, its public id decoded from the
    /// random bytes `random`. Fails with `MalformedId`, changing nothing,
    /// where those bytes are not well-formed UTF-8. The id is decoded before
    /// either store is written, and both writes happen within this call.
    pub fn create_user(
        &mut self,
        caller: Identity,
        random: Vec<u8>,
        fullname: String,
        email: String,
        role: &str,
    ) -> (r: Result<Profile, StoreError>)
        requires
            old(self).wf(),
        ensures
            final(self).wf(),
            match utf8_text(random@) {
                None => {
                    &&& r == Err::<Profile, StoreError>(StoreError::MalformedId)
                    &&& final(self)@ == old(self)@
                },
                Some(id) => {
                    &&& r is Ok
                    &&& r->Ok_0@ == new_profile(id, fullname@, email@, role_named(role@))
                    &&& final(self)@.ids == put(old(self)@.ids, id, caller@)
                    &&& final(self)@.profiles == put(old(self)@.profiles, caller@, r->Ok_0@)
                    &&& final(self)@.courses == old(self)@.courses
                    &&& final(self)@.jobs == old(self)@.jobs
                },
            },
    {
        match decode_utf8(random) {
            None => Err(StoreError::MalformedId),
            Some(id) => Ok(self.create_user_with_id(caller, id, fullname, email, role)),
        }
    }

    /// The profile of `caller`, or the default profile where it has none.
    pub fn get_self(&self, caller: &Identity) -> (r: Profile)
        requires
            self.wf(),
        ensures
            r@ == profile_or_default(self@.profiles, caller@),
    {
        let found = find_identity(&self.profiles, caller);
        proof {
            lemma_found(self.profiles@, caller@, found);
        }
        match found {
            Some(i) => self.profiles[i].1.duplicate(),
            None => Profile::default(),
        }
    }

    /// The profile registered under the public id `uid`, or the default
    /// profile where the id or its caller's profile is missing.
    pub fn get(&self, uid: &String) -> (r: Profile)
        requires
            self.wf(),
        ensures
            r@ == profile_by_public_id(self@, uid@),
    {
        let found = find_text(&self.ids, uid);
        proof {
            lemma_found(self.ids@, uid@, found);
        }
        match found {
            Some(i) => self.get_self(&self.ids[i].1),
            None => Profile::default(),
        }
    }

    /// Replaces the whole profile of `caller` with `profile` where `caller`
    /// has one; does nothing otherwise.
    pub fn update(&mut self, caller: &Identity, profile: Profile)
        requires
            old(self).wf(),
        ensures
            final(self).wf(),
            final(self)@.profiles == if has_key(old(self)@.profiles, caller@) {
                put(old(self)@.profiles, caller@, profile@)
            } else {
                old(self)@.profiles
            },
            final(self)@.ids == old(self)@.ids,
            final(self)@.courses == old(self)@.courses,
            final(self)@.jobs == old(self)@.jobs,
    {
        let found = find_identity(&self.profiles, caller);
        proof {
            lemma_found(self.profiles@, caller@, found);
        }
        if found.is_some() {
            put_identity(&mut self.profiles, caller.duplicate(), profile);
        }
    }

    /// The first profile, in store order, whose full name or description
    /// holds `text` or one of whose keywords equals it, case being ignored;
    /// `None` where no profile does.
    pub fn search(&self, text: &str) -> (r: Option<Profile>)
        requires
            self.wf(),
        ensures
            r is None <==> forall|i: int| 0 <= i < self@.profiles.len()
                ==> !profile_matches(#[trigger] self@.profiles[i].1, lower_of(text@)),
            r is Some ==> exists|i: int| #[trigger] first_match_at(self@.profiles, lower_of(text@), i)
                && r->Some_0@ == self@.profiles[i].1,
    {
        let q = lowercase(text);
        let mut i: usize = 0;
        while i < self.profiles.len()
            invariant
                self.wf(),
                q@ == lower_of(text@),
                i <= self@.profiles.len(),
                self@.profiles.len() == self.profiles@.len(),
                forall|j: int| 0 <= j < i ==> !profile_matches(#[trigger] self@.profiles[j].1, q@),
            decreases self.profiles@.len() - i,
        {
            let p = &self.profiles[i].1;
            let name = lowercase(p.fullname.as_str());
            let desc = lowercase(p.description.as_str());
            let kws = lower_all(&p.keywords);
            if matches_lowered(&q, &name, &desc, &kws) {
                assert(first_match_at(self@.profiles, q@, i as int));
                return Some(p.duplicate());
            }
            i = i + 1;
        }
        None
    }

    /// Whether `caller` may create a course: its role is exactly `TRAINER`.
    pub fn can_create_course(&self, caller: &Identity) -> (r: bool)
        requires
            self.wf(),
        ensures
            r == (role_of(self@, caller@) == Roles::TRAINER),
    {
        let p = self.get_self(caller);
        match p.role {
            Roles::TRAINER => true,
            _ => false,
        }
    }

    /// Creates the course `id` with `title` and no applicants, made by
    /// `caller`, replacing any course with that id. Fails with `NotTrainer`,
    /// changing nothing, where `caller`'s role is not `TRAINER`.
    pub fn create_course_with_id(&mut self, caller: Identity, id: String, title: String)
        -> (r: Result<Course, StoreError>)
        requires
            old(self).wf(),
        ensures
            final(self).wf(),
            role_of(old(self)@, caller@) != Roles::TRAINER ==> {
                &&& r == Err::<Course, StoreError>(StoreError::NotTrainer)
                &&& final(self)@ == old(self)@
            },
            role_of(old(self)@, caller@) == Roles::TRAINER ==> {
                &&& r is Ok
                &&& r->Ok_0@ == new_posting(id@, title@, caller@)
                &&& final(self)@.courses == put(old(self)@.courses, id@, r->Ok_0@)
                &&& final(self)@.ids == old(self)@.ids
                &&& final(self)@.profiles == old(self)@.profiles
                &&& final(self)@.jobs == old(self)@.jobs
            },
    {
        if !self.can_create_course(&caller) {
            return Err(StoreError::NotTrainer);
        }
        let c = Course { id: id.clone(), title, creator: caller, applicants: Vec::new() };
        assert(c@.applicants == Seq::<Seq<u8>>::empty());
        let r = c.duplicate();
        put_text(&mut self.courses, id, c);
        Ok(r)
    }

    /// Creates a course of `caller` with `title`, its id decoded from the
    /// random bytes `random`. Fails, changing nothing, with `NotTrainer`
    /// where `caller`'s role is not `TRAINER`, and otherwise with
    /// `MalformedId` where the bytes are not well-formed UTF-8.
    pub fn create_course(&mut self, caller: Identity, random: Vec<u8>, title: String)
        -> (r: Result<Course, StoreError>)
        requires
            old(self).wf(),
        ensures
            final(self).wf(),
            role_of(old(self)@, caller@) != Roles::TRAINER ==> {
                &&& r == Err::<Course, StoreError>(StoreError::NotTrainer)
                &&& final(self)@ == old(self)@
            },
            role_of(old(self)@, caller@) == Roles::TRAINER ==> match utf8_text(random@) {
                None => {
                    &&& r == Err::<Course, StoreError>(StoreError::MalformedId)
                    &&& final(self)@ == old(self)@
                },
                Some(id) => {
                    &&& r is Ok
                    &&& r->Ok_0@ == new_posting(id, title@, caller@)
                    &&& final(self)@.courses == put(old(self)@.courses, id, r->Ok_0@)
                    &&& final(self)@.ids == old(self)@.ids
                    &&& final(self)@.profiles == old(self)@.profiles
                    &&& final(self)@.jobs == old(self)@.jobs
                },
            },
    {
        if !self.can_create_course(&caller) {
            return Err(StoreError::NotTrainer);
        }
        match decode_utf8(random) {
            None => Err(StoreError::MalformedId),
            Some(id) => self.create_course_with_id(caller, id, title),
        }
    }

    /// The course with id `id`; fails with `NoSuchCourse` where there is none.
    pub fn get_course(&self, id: &String) -> (r: Result<Course, StoreError>)
        requires
            self.wf(),
        ensures
            match lookup(self@.courses, id@) {
                Some(c) => r is Ok && r->Ok_0@ == c,
                None => r == Err::<Course, StoreError>(StoreError::NoSuchCourse),
            },
    {
        let found = find_text(&self.courses, id);
        proof {
            lemma_found(self.courses@, id@, found);
        }
        match found {
            Some(i) => Ok(self.courses[i].1.duplicate()),
            None => Err(StoreError::NoSuchCourse),
        }
    }

    /// Every course, with its id, in store order.
    pub fn get_all_course(&self) -> (r: Vec<(String, Course)>)
        ensures
            pairs_view(r@) == self@.courses,
    {
        let mut r: Vec<(String, Course)> = Vec::new();
        let mut i: usize = 0;
        while i < self.courses.len()
            invariant
                i <= self.courses@.len(),
                pairs_view(r@) == pairs_view(self.courses@).subrange(0, i as int),
            decreases self.courses@.len() - i,
        {
            let e = (self.courses[i].0.clone(), self.courses[i].1.duplicate());
            assert((e.0@, e.1@) == pairs_view(self.courses@)[i as int]);
            let ghost before = r@;
            r.push(e);
            assert(pairs_view(r@) =~= pairs_view(before).push((e.0@, e.1@)));
            assert(pairs_view(r@) =~= pairs_view(self.courses@).subrange(0, i + 1));
            i = i + 1;
        }
        assert(pairs_view(self.courses@).subrange(0, i as int) =~= pairs_view(self.courses@));
        r
    }

    /// Appends `caller` to the applicants of course `id`, duplicates
    /// allowed; does nothing where there is no such course.
    pub fn apply_course(&mut self, caller: &Identity, id: &String)
        requires
            old(self).wf(),
        ensures
            final(self).wf(),
            final(self)@.courses == apply_to(old(self)@.courses, id@, caller@),
            final(self)@.ids == old(self)@.ids,
            final(self)@.profiles == old(self)@.profiles,
            final(self)@.jobs == old(self)@.jobs,
    {
        let found = find_text(&self.courses, id);
        proof {
            lemma_found(self.courses@, id@, found);
        }
        match found {
            Some(i) => {
                let mut c = self.courses[i].1.duplicate();
                let ghost before = c.applicants@;
                c.applicants.push(caller.duplicate());
                assert(identities_view(c.applicants@) =~= identities_view(before).push(caller@));
                assert(c@ == with_applicant(self.courses@[i as int].1@, caller@));
                put_text(&mut self.courses, id.clone(), c);
            },
            None => {},
        }
    }

    /// Creates the job posting `id` with `title` and no applicants, made by
    /// `caller`, and stores it under `caller`, replacing the posting
    /// `caller` had stored before.
    pub fn create_job_with_id(&mut self, caller: Identity, id: String, title: String) -> (r: Jobs)
        requires
            old(self).wf(),
        ensures
            final(self).wf(),
            r@ == new_posting(id@, title@, caller@),
            final(self)@.jobs == put(old(self)@.jobs, caller@, r@),
            final(self)@.ids == old(self)@.ids,
            final(self)@.profiles == old(self)@.profiles,
            final(self)@.courses == old(self)@.courses,
    {
        let key = caller.duplicate();
        let j = Jobs { id, title, creator: caller, applicants: Vec::new() };
        assert(j@.applicants == Seq::<Seq<u8>>::empty());
        let r = j.duplicate();
        put_identity(&mut self.jobs, key, j);
        r
    }

    /// Creates the job posting of `caller` with `title`, its id decoded from
    /// the random bytes `random`. Fails with `MalformedId`, changing
    /// nothing, where those bytes are not well-formed UTF-8.
    pub fn create_job(&mut self, caller: Identity, random: Vec<u8>, title: String)
        -> (r: Result<Jobs, StoreError>)
        requires
            old(self).wf(),
        ensures
            final(self).wf(),
            match utf8_text(random@) {
                None => {
                    &&& r == Err::<Jobs, StoreError>(StoreError::MalformedId)
                    &&& final(self)@ == old(self)@
                },
                Some(id) => {
                    &&& r is Ok
                    &&& r->Ok_0@ == new_posting(id, title@, caller@)
                    &&& final(self)@.jobs == put(old(self)@.jobs, caller@, r->Ok_0@)
                    &&& final(self)@.ids == old(self)@.ids
                    &&& final(self)@.profiles == old(self)@.profiles
                    &&& final(self)@.courses == old(self)@.courses
                },
            },
    {
        match decode_utf8(random) {
            None => Err(StoreError::MalformedId),
            Some(id) => Ok(self.create_job_with_id(caller, id, title)),
        }
    }

    /// Appends `caller` to the applicants of the job posting stored under
    /// its creator `creator`, duplicates allowed; does nothing where
    /// `creator` has none.
    pub fn apply_jobs(&mut self, creator: &Identity, caller: &Identity)
        requires
            old(self).wf(),
        ensures
            final(self).wf(),
            final(self)@.jobs == apply_to(old(self)@.jobs, creator@, caller@),
            final(self)@.ids == old(self)@.ids,
            final(self)@.profiles == old(self)@.profiles,
            final(self)@.courses == old(self)@.courses,
    {
        let found = find_identity(&self.jobs, creator);
        proof {
            lemma_found(self.jobs@, creator@, found);
        }
        match found {
            Some(i) => {
                let mut j = self.jobs[i].1.duplicate();
                let ghost before = j.applicants@;
                j.applicants.push(caller.duplicate());
                assert(identities_view(j.applicants@) =~= identities_view(before).push(caller@));
                assert(j@ == with_applicant(self.jobs@[i as int].1@, caller@));
                put_identity(&mut self.jobs, creator.duplicate(), j);
            },
            None => {},
        }
    }

    /// Every job posting, with the creator it is stored under, in store order.
    pub fn get_all_jobs(&self) -> (r: Vec<(Identity, Jobs)>)
        ensures
            pairs_view(r@) == self@.jobs,
    {
        let mut r: Vec<(Identity, Jobs)> = Vec::new();
        let mut i: usize = 0;
        while i < self.jobs.len()
            invariant
                i <= self.jobs@.len(),
                pairs_view(r@) == pairs_view(self.jobs@).subrange(0, i as int),
            decreases self.jobs@.len() - i,
        {
            let e = (self.jobs[i].0.duplicate(), self.jobs[i].1.duplicate());
            assert((e.0@, e.1@) == pairs_view(self.jobs@)[i as int]);
            let ghost before = r@;
            r.push(e);
            assert(pairs_view(r@) =~= pairs_view(before).push((e.0@, e.1@)));
            assert(pairs_view(r@) =~= pairs_view(self.jobs@).subrange(0, i + 1));
            i = i + 1;
        }
        assert(pairs_view(self.jobs@).subrange(0, i as int) =~= pairs_view(self.jobs@));
        r
    }
}

} // verus!
