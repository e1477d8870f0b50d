//! The records that travel through the relay. Each lives for one exchange: the
//! upstream sends it, the relay hands it on.

use vstd::prelude::*;

verus! {

/// A cat fact as the fact service sends it.
#[derive(Debug, PartialEq, Eq)]
pub struct CatFact {
    pub fact: String,
    pub length: u32,
}

/// What a [`CatFact`] holds.
pub struct CatFactView {
    pub fact: Seq<char>,
    pub length: nat,
}

impl View for CatFact {
    type V = CatFactView;

    open spec fn view(&self) -> CatFactView {
        CatFactView { fact: self.fact@, length: self.length as nat }
    }
}

impl DeepView for CatFact {
    type V = CatFactView;

    open spec fn deep_view(&self) -> CatFactView {
        self@
    }
}

impl Clone for CatFact {
    fn clone(&self) -> (copy: Self)
        ensures
            copy == *self,
    {
        CatFact { fact: self.fact.clone(), length: self.length }
    }
}

/// A post of the placeholder API.
#[derive(Debug, PartialEq, Eq)]
pub struct Post {
    pub id: u32,
    pub title: String,
    pub body: String,
    pub user_id: u32,
}

/// What a [`Post`] holds.
pub struct PostView {
    pub id: nat,
    pub title: Seq<char>,
    pub body: Seq<char>,
    pub user_id: nat,
}

impl View for Post {
    type V = PostView;

    open spec fn view(&self) -> PostView {
        PostView {
            id: self.id as nat,
            title: self.title@,
            body: self.body@,
            user_id: self.user_id as nat,
        }
    }
}

impl DeepView for Post {
    type V = PostView;

    open spec fn deep_view(&self) -> PostView {
        self@
    }
}

impl Clone for Post {
    fn clone(&self) -> (copy: Self)
        ensures
            copy == *self,
    {
        Post {
            id: self.id,
            title: self.title.clone(),
            body: self.body.clone(),
            user_id: self.user_id,
        }
    }
}

/// A comment on a post of the placeholder API.
#[derive(Debug, PartialEq, Eq)]
pub struct Comment {
    pub post_id: u32,
    pub id: u32,
    pub name: String,
    pub email: String,
    pub body: String,
}

/// What a [`Comment`] holds.
pub struct CommentView {
    pub post_id: nat,
    pub id: nat,
    pub name: Seq<char>,
    pub email: Seq<char>,
    pub body: Seq<char>,
}

impl View for Comment {
    type V = CommentView;

    open spec fn view(&self) -> CommentView {
        CommentView {
            post_id: self.post_id as nat,
            id: self.id as nat,
            name: self.name@,
            email: self.email@,
            body: self.body@,
        }
    }
}

impl DeepView for Comment {
    type V = CommentView;

    open spec fn deep_view(&self) -> CommentView {
        self@
    }
}

impl Clone for Comment {
    fn clone(&self) -> (copy: Self)
        ensures
            copy == *self,
    {
        Comment {
            post_id: self.post_id,
            id: self.id,
            name: self.name.clone(),
            email: self.email.clone(),
            body: self.body.clone(),
        }
    }
}

} // verus!
