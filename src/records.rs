use vstd::prelude::*;
use crate::identity::{copy_bytes, copy_identities, Identity};
use crate::roles::Roles;

verus! {

/// The characters of each text in a list.
pub open spec fn texts_view(v: Seq<String>) -> Seq<Seq<char>> {
    v.map_values(|s: String| s@)
}

/// The principal bytes of each identity in a list.
pub open spec fn identities_view(v: Seq<Identity>) -> Seq<Seq<u8>> {
    v.map_values(|p: Identity| p@)
}

/// A copy of a list of texts.
pub fn copy_texts(v: &Vec<String>) -> (r: Vec<String>)
    ensures
        r@ == v@,
{
    let mut r: Vec<String> = Vec::new();
    let mut i: usize = 0;
    while i < v.len()
        invariant
            i <= v@.len(),
            r@ == v@.subrange(0, i as int),
        decreases v@.len() - i,
    {
        r.push(v[i].clone());
        i = i + 1;
    }
    assert(r@ == v@);
    r
}

/// A user's profile.
#[derive(Debug, Clone, PartialEq)]
pub struct Profile {
    pub id: String,
    pub fullname: String,
    pub email: String,
    pub occupation: String,
    pub organization: String,
    pub location: String,
    pub resume: Vec<u8>,
    pub role: Roles,
    pub description: String,
    pub keywords: Vec<String>,
    pub skills: Vec<String>,
}

/// The mathematical value of a profile.
pub struct ProfileView {
    pub id: Seq<char>,
    pub fullname: Seq<char>,
    pub email: Seq<char>,
    pub occupation: Seq<char>,
    pub organization: Seq<char>,
    pub location: Seq<char>,
    pub resume: Seq<u8>,
    pub role: Roles,
    pub description: Seq<char>,
    pub keywords: Seq<Seq<char>>,
    pub skills: Seq<Seq<char>>,
}

impl View for Profile {
    type V = ProfileView;

    open spec fn view(&self) -> ProfileView {
        ProfileView {
            id: self.id@,
            fullname: self.fullname@,
            email: self.email@,
            occupation: self.occupation@,
            organization: self.organization@,
            location: self.location@,
            resume: self.resume@,
            role: self.role,
            description: self.description@,
            keywords: texts_view(self.keywords@),
            skills: texts_view(self.skills@),
        }
    }
}

/// The profile of a caller who has none yet: role `TRAINEE`, all else empty.
pub open spec fn default_profile() -> ProfileView {
    ProfileView {
        id: Seq::empty(),
        fullname: Seq::empty(),
        email: Seq::empty(),
        occupation: Seq::empty(),
        organization: Seq::empty(),
        location: Seq::empty(),
        resume: Seq::empty(),
        role: Roles::TRAINEE,
        description: Seq::empty(),
        keywords: Seq::empty(),
        skills: Seq::empty(),
    }
}

/// A freshly created profile: the given id, name, email and role, all else
/// as in the default profile.
pub open spec fn new_profile(id: Seq<char>, fullname: Seq<char>, email: Seq<char>, role: Roles) -> ProfileView {
    ProfileView { id, fullname, email, role, ..default_profile() }
}

impl Default for Profile {
    fn default() -> (r: Profile)
        ensures
            r@ == default_profile(),
    {
        let r = Profile {
            id: String::new(),
            fullname: String::new(),
            email: String::new(),
            occupation: String::new(),
            organization: String::new(),
            location: String::new(),
            resume: Vec::new(),
            role: Roles::TRAINEE,
            description: String::new(),
            keywords: Vec::new(),
            skills: Vec::new(),
        };
        assert(texts_view(r.keywords@) == Seq::<Seq<char>>::empty());
        assert(texts_view(r.skills@) == Seq::<Seq<char>>::empty());
        r
    }
}

impl Profile {
    /// A copy with the same value.
    pub fn duplicate(&self) -> (r: Profile)
        ensures
            r@ == self@,
    {
        Profile {
            id: self.id.clone(),
            fullname: self.fullname.clone(),
            email: self.email.clone(),
            occupation: self.occupation.clone(),
            organization: self.organization.clone(),
            location: self.location.clone(),
            resume: copy_bytes(&self.resume),
            role: self.role,
            description: self.description.clone(),
            keywords: copy_texts(&self.keywords),
            skills: copy_texts(&self.skills),
        }
    }
}

/// A training course.
#[derive(Debug, Clone, PartialEq)]
pub struct Course {
    pub id: String,
    pub title: String,
    pub creator: Identity,
    pub applicants: Vec<Identity>,
}

/// A job posting.
#[derive(Debug, Clone, PartialEq)]
pub struct Jobs {
    pub id: String,
    pub title: String,
    pub creator: Identity,
    pub applicants: Vec<Identity>,
}

/// The mathematical value of a course or a job posting.
pub struct PostingView {
    pub id: Seq<char>,
    pub title: Seq<char>,
    pub creator: Seq<u8>,
    pub applicants: Seq<Seq<u8>>,
}

/// A fresh posting, with no applicants yet.
pub open spec fn new_posting(id: Seq<char>, title: Seq<char>, creator: Seq<u8>) -> PostingView {
    PostingView { id, title, creator, applicants: Seq::empty() }
}

/// The posting with `who` appended to its applicants.
pub open spec fn with_applicant(p: PostingView, who: Seq<u8>) -> PostingView {
    PostingView { applicants: p.applicants.push(who), ..p }
}

impl View for Course {
    type V = PostingView;

    open spec fn view(&self) -> PostingView {
        PostingView {
            id: self.id@,
            title: self.title@,
            creator: self.creator@,
            applicants: identities_view(self.applicants@),
        }
    }
}

impl View for Jobs {
    type V = PostingView;

    open spec fn view(&self) -> PostingView {
        PostingView {
            id: self.id@,
            title: self.title@,
            creator: self.creator@,
            applicants: identities_view(self.applicants@),
        }
    }
}

impl Course {
    /// A copy with the same value.
    pub fn duplicate(&self) -> (r: Course)
        ensures
            r@ == self@,
    {
        let applicants = copy_identities(&self.applicants);
        assert(identities_view(applicants@) == identities_view(self.applicants@));
        Course {
            id: self.id.clone(),
            title: self.title.clone(),
            creator: self.creator.duplicate(),
            applicants,
        }
    }
}

impl Jobs {
    /// A copy with the same value.
    pub fn duplicate(&self) -> (r: Jobs)
        ensures
            r@ == self@,
    {
        let applicants = copy_identities(&self.applicants);
        assert(identities_view(applicants@) == identities_view(self.applicants@));
        Jobs {
            id: self.id.clone(),
            title: self.title.clone(),
            creator: self.creator.duplicate(),
            applicants,
        }
    }
}

} // verus!
