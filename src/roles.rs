use vstd::prelude::*;

verus! {

/// The closed set of roles a profile can hold. `TRAINEE` is the default.
#[derive(Debug, Clone, Copy, PartialEq, Eq, Structural)]
pub enum Roles {
    TRAINER,
    TRAINEE,
    EMPLOYER,
    ADMIN,
}

/// The role named by `s`: the exact, case-sensitive words "Trainer",
/// "Trainee" and "Employer" name their roles; every other text, "Admin"
/// and the empty text included, falls back to `ADMIN`.
pub open spec fn role_named(s: Seq<char>) -> Roles {
    if s == "Trainer"@ {
        Roles::TRAINER
    } else if s == "Trainee"@ {
        Roles::TRAINEE
    } else if s == "Employer"@ {
        Roles::EMPLOYER
    } else {
        Roles::ADMIN
    }
}

/// Whether two texts hold the same characters.
fn same_text(a: &str, b: &str) -> (r: bool)
    ensures
        r == (a@ == b@),
{
    let x: String = a.to_owned();
    let y: String = b.to_owned();
    x == y
}

impl Roles {
    /// Parses a role from its name; unknown names give `ADMIN`.
    pub fn from_str(el: &str) -> (r: Roles)
        ensures
            r == role_named(el@),
    {
        if same_text(el, "Trainer") {
            Roles::TRAINER
        } else if same_text(el, "Trainee") {
            Roles::TRAINEE
        } else if same_text(el, "Employer") {
            Roles::EMPLOYER
        } else {
            Roles::ADMIN
        }
    }
}

impl Default for Roles {
    fn default() -> (r: Roles)
        ensures
            r == Roles::TRAINEE,
    {
        Roles::TRAINEE
    }
}

} // verus!
