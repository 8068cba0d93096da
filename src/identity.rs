use vstd::prelude::*;

verus! {

/// A contact record: first name, last name, email and an optional comment.
/// It never carries secret material.
#[derive(Debug, PartialEq, Eq, Hash)]
pub struct Identity {
    first_name: String,
    last_name: String,
    email: String,
    comment: Option<String>,
}

impl Identity {
    pub closed spec fn first_name(&self) -> Seq<char> {
        self.first_name@
    }

    pub closed spec fn last_name(&self) -> Seq<char> {
        self.last_name@
    }

    pub closed spec fn email(&self) -> Seq<char> {
        self.email@
    }

    pub closed spec fn comment(&self) -> Option<Seq<char>> {
        match self.comment {
            Some(c) => Some(c@),
            None => None,
        }
    }

    pub fn new(first_name: String, last_name: String, email: String, comment: Option<String>) -> (r:
        Self)
        ensures
            r.first_name() == first_name@,
            r.last_name() == last_name@,
            r.email() == email@,
            r.comment() == (match comment {
                Some(c) => Some(c@),
                None => None::<Seq<char>>,
            }),
    {
        Identity { first_name, last_name, email, comment }
    }

    pub fn get_first_name(&self) -> (r: &String)
        ensures
            r@ == self.first_name(),
    {
        &self.first_name
    }

    pub fn get_last_name(&self) -> (r: &String)
        ensures
            r@ == self.last_name(),
    {
        &self.last_name
    }

    pub fn get_email(&self) -> (r: &String)
        ensures
            r@ == self.email(),
    {
        &self.email
    }

    pub fn get_comment(&self) -> (r: &Option<String>)
        ensures
            r.is_some() == self.comment().is_some(),
            r.is_some() ==> r.unwrap()@ == self.comment().unwrap(),
    {
        &self.comment
    }

    /// A field-by-field copy of this identity.
    pub fn duplicate(&self) -> (r: Identity)
        ensures
            r == *self,
    {
        let comment = match &self.comment {
            Some(c) => Some(c.clone()),
            None => None,
        };
        Identity {
            first_name: self.first_name.clone(),
            last_name: self.last_name.clone(),
            email: self.email.clone(),
            comment,
        }
    }
}

} // verus!
