use ea_backend::{matches_lowered, Backend, Identity, Profile, Roles, StoreError};

fn who(b: u8) -> Identity {
    Identity::from_bytes(vec![b, 7, 9])
}

fn user(b: &mut Backend, caller: u8, id: &str, name: &str, role: &str) -> Profile {
    b.create_user_with_id(who(caller), id.to_string(), name.to_string(), "e@x.org".to_string(), role)
}

#[test]
fn role_parsing_falls_back_to_admin() {
    assert_eq!(Roles::from_str("Trainer"), Roles::TRAINER);
    assert_eq!(Roles::from_str("trainer"), Roles::ADMIN);
    assert_eq!(Roles::from_str(""), Roles::ADMIN);
    assert_eq!(Roles::from_str("Trainee"), Roles::TRAINEE);
    assert_eq!(Roles::from_str("Employer"), Roles::EMPLOYER);
    assert_eq!(Roles::from_str("Admin"), Roles::ADMIN);
    assert_eq!(Roles::default(), Roles::TRAINEE);
}

#[test]
fn get_self_without_profile_is_default() {
    let b = Backend::new();
    let p = b.get_self(&who(1));
    assert_eq!(p.role, Roles::TRAINEE);
    assert!(p.id.is_empty() && p.fullname.is_empty() && p.email.is_empty());
    assert!(p.occupation.is_empty() && p.organization.is_empty() && p.location.is_empty());
    assert!(p.resume.is_empty() && p.description.is_empty());
    assert!(p.keywords.is_empty() && p.skills.is_empty());
    assert_eq!(p, Profile::default());
}

#[test]
fn create_user_stores_and_returns_profile() {
    let mut b = Backend::new();
    let p = user(&mut b, 1, "pub-1", "Ann Lee", "Employer");
    assert_eq!(p.id, "pub-1");
    assert_eq!(p.fullname, "Ann Lee");
    assert_eq!(p.email, "e@x.org");
    assert_eq!(p.role, Roles::EMPLOYER);
    assert!(p.keywords.is_empty());
    assert_eq!(b.get_self(&who(1)), p);
    assert_eq!(b.get(&"pub-1".to_string()), p);
    assert_eq!(b.get(&"pub-2".to_string()), Profile::default());
}

#[test]
fn create_user_decodes_random_bytes() {
    let mut b = Backend::new();
    let p = b.create_user(who(1), b"r4nd".to_vec(), "Bo".to_string(), "b@x".to_string(), "Trainer").unwrap();
    assert_eq!(p.id, "r4nd");
    assert_eq!(p.role, Roles::TRAINER);
    assert_eq!(b.get(&"r4nd".to_string()).fullname, "Bo");
}

#[test]
fn create_user_with_malformed_bytes_fails_and_changes_nothing() {
    let mut b = Backend::new();
    let r = b.create_user(who(1), vec![0xff, 0xfe, 0x80], "Bo".to_string(), "b@x".to_string(), "Trainer");
    assert_eq!(r, Err(StoreError::MalformedId));
    assert_eq!(b.get_self(&who(1)), Profile::default());
}

#[test]
fn distinct_ids_each_resolve_to_their_caller() {
    let mut b = Backend::new();
    for i in 0..5u8 {
        user(&mut b, i, &format!("id-{}", i), &format!("name {}", i), "Trainee");
    }
    for i in 0..5u8 {
        assert_eq!(b.get(&format!("id-{}", i)).fullname, format!("name {}", i));
    }
}

#[test]
fn update_replaces_whole_profile() {
    let mut b = Backend::new();
    user(&mut b, 1, "pub-1", "Ann Lee", "Trainee");
    let mut q = Profile::default();
    q.fullname = "New".to_string();
    q.role = Roles::ADMIN;
    q.skills = vec!["rust".to_string()];
    b.update(&who(1), q.clone());
    assert_eq!(b.get_self(&who(1)), q);
    assert_eq!(b.get_self(&who(1)).id, "");
}

#[test]
fn update_without_profile_is_no_op() {
    let mut b = Backend::new();
    let mut q = Profile::default();
    q.fullname = "Ghost".to_string();
    b.update(&who(2), q);
    assert_eq!(b.get_self(&who(2)), Profile::default());
    assert!(b.search("ghost").is_none());
}

#[test]
fn search_returns_first_match_in_store_order() {
    let mut b = Backend::new();
    user(&mut b, 9, "a", "Ann Lee", "Trainee");
    user(&mut b, 1, "b", "Ann Park", "Trainee");
    assert_eq!(b.search("ann").unwrap().fullname, "Ann Lee");
    assert_eq!(b.search("PARK").unwrap().fullname, "Ann Park");
    assert!(b.search("bob").is_none());
}

#[test]
fn search_matches_description_and_whole_keywords() {
    let mut b = Backend::new();
    user(&mut b, 1, "a", "Ann Lee", "Trainee");
    let mut q = b.get_self(&who(1));
    q.description = "Welder and Painter".to_string();
    q.keywords = vec!["Carpentry".to_string()];
    b.update(&who(1), q);
    assert_eq!(b.search("painter").unwrap().fullname, "Ann Lee");
    assert_eq!(b.search("CARPENTRY").unwrap().fullname, "Ann Lee");
    assert!(b.search("carp").is_none());
}

#[test]
fn matches_lowered_on_given_values() {
    let kws = vec!["go".to_string(), "rust".to_string()];
    assert!(matches_lowered(&"lee".to_string(), &"ann lee".to_string(), &"".to_string(), &kws));
    assert!(matches_lowered(&"weld".to_string(), &"ann".to_string(), &"a welder".to_string(), &kws));
    assert!(matches_lowered(&"rust".to_string(), &"ann".to_string(), &"".to_string(), &kws));
    assert!(!matches_lowered(&"rus".to_string(), &"ann".to_string(), &"".to_string(), &kws));
    assert!(!matches_lowered(&"Ann".to_string(), &"ann".to_string(), &"".to_string(), &kws));
}

#[test]
fn only_trainers_create_courses() {
    let mut b = Backend::new();
    assert_eq!(b.create_course_with_id(who(1), "c0".to_string(), "T".to_string()), Err(StoreError::NotTrainer));
    user(&mut b, 1, "p1", "A", "Trainee");
    user(&mut b, 2, "p2", "B", "Employer");
    user(&mut b, 3, "p3", "C", "Admin");
    user(&mut b, 4, "p4", "D", "Trainer");
    for c in 1..4u8 {
        assert!(!b.can_create_course(&who(c)));
        assert_eq!(b.create_course(who(c), b"cid".to_vec(), "T".to_string()), Err(StoreError::NotTrainer));
    }
    assert!(b.get_all_course().is_empty());
    let c = b.create_course(who(4), b"cid".to_vec(), "Welding".to_string()).unwrap();
    assert_eq!(c.id, "cid");
    assert_eq!(c.title, "Welding");
    assert_eq!(c.creator, who(4));
    assert!(c.applicants.is_empty());
    assert_eq!(b.get_course(&"cid".to_string()), Ok(c));
}

#[test]
fn course_with_malformed_id_fails() {
    let mut b = Backend::new();
    user(&mut b, 4, "p4", "D", "Trainer");
    assert_eq!(b.create_course(who(4), vec![0xc3], "T".to_string()), Err(StoreError::MalformedId));
    assert!(b.get_all_course().is_empty());
}

#[test]
fn missing_course_is_an_error() {
    let b = Backend::new();
    assert_eq!(b.get_course(&"nope".to_string()), Err(StoreError::NoSuchCourse));
}

#[test]
fn applying_twice_appends_twice() {
    let mut b = Backend::new();
    user(&mut b, 4, "p4", "D", "Trainer");
    b.create_course_with_id(who(4), "c1".to_string(), "T".to_string()).unwrap();
    b.apply_course(&who(5), &"c1".to_string());
    b.apply_course(&who(5), &"c1".to_string());
    b.apply_course(&who(5), &"missing".to_string());
    let c = b.get_course(&"c1".to_string()).unwrap();
    assert_eq!(c.applicants, vec![who(5), who(5)]);
    let all = b.get_all_course();
    assert_eq!(all.len(), 1);
    assert_eq!(all[0].0, "c1");
    assert_eq!(all[0].1, c);
}

#[test]
fn second_job_of_a_creator_replaces_first() {
    let mut b = Backend::new();
    b.create_job_with_id(who(1), "j1".to_string(), "First".to_string());
    let second = b.create_job(who(1), b"j2".to_vec(), "Second".to_string()).unwrap();
    assert_eq!(second.id, "j2");
    let all = b.get_all_jobs();
    assert_eq!(all.len(), 1);
    assert_eq!(all[0].0, who(1));
    assert_eq!(all[0].1, second);
    assert_eq!(all[0].1.title, "Second");
}

#[test]
fn jobs_are_applied_to_by_creator_key() {
    let mut b = Backend::new();
    let j = b.create_job_with_id(who(1), "j1".to_string(), "Cook".to_string());
    b.apply_jobs(&who(1), &who(2));
    b.apply_jobs(&who(1), &who(2));
    b.apply_jobs(&who(3), &who(2));
    let all = b.get_all_jobs();
    assert_eq!(all.len(), 1);
    assert_eq!(all[0].1.id, j.id);
    assert_eq!(all[0].1.applicants, vec![who(2), who(2)]);
    assert_eq!(b.create_job(who(1), vec![0xff], "x".to_string()), Err(StoreError::MalformedId));
    assert_eq!(b.get_all_jobs()[0].1.title, "Cook");
}
