#![allow(dead_code)]

use gallery_core::db::join::{JoinBuilder, Joinable};

#[derive(Debug, Clone)]
struct User {
    id: u32,
}

#[derive(Debug, Clone)]
struct Profile {
    user_id: u32,
    name: &'static str,
}

#[derive(Debug, Clone)]
struct Post {
    id: u32,
    author_id: u32,
}

impl Joinable<Profile> for User {
    type Key = u32;
    fn join_key(&self) -> Self::Key {
        self.id
    }
    fn reference_key(t: &Profile) -> Self::Key {
        t.user_id
    }
    fn join_on(&self) -> &Self::Key {
        &self.id
    }
    fn reference(t: &Profile) -> &Self::Key {
        &t.user_id
    }
}

impl Joinable<Post> for User {
    type Key = u32;
    fn join_key(&self) -> Self::Key {
        self.id
    }
    fn reference_key(t: &Post) -> Self::Key {
        t.author_id
    }
    fn join_on(&self) -> &Self::Key {
        &self.id
    }
    fn reference(t: &Post) -> &Self::Key {
        &t.author_id
    }
}

#[test]
fn test() {
    let users = vec![User { id: 0 }, User { id: 1 }];
    let profiles = vec![
        Profile {
            user_id: 0,
            name: "John",
        },
        Profile {
            user_id: 1,
            name: "Doe",
        },
    ];
    let posts = vec![
        Post {
            id: 42,
            author_id: 1,
        },
        Post {
            id: 1337,
            author_id: 1,
        },
        Post {
            id: 52,
            author_id: 0,
        },
    ];

    let joined = JoinBuilder::new(users)
        .with(profiles, |user| user)
        .with_group(posts, |(user, ..)| user)
        .build();

    {
        let row = &joined[1];
        let ((user, profile), posts) = row;
        assert_eq!(user.id, profile.user_id);
        assert_eq!(posts.len(), 2);
    }
}
