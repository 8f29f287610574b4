use vstd::prelude::*;

use crate::error::Error;

verus! {

/// A submitted nomination: the submitter's identity and display name at
/// submission time, the artist and album names, one or more links
/// (newline-delimited free text), optional notes, and the category.
#[derive(Debug)]
pub struct Suggestion {
    pub user_id: u64,
    pub username: String,
    pub artist_name: String,
    pub album_name: String,
    pub links: String,
    pub notes: Option<String>,
    pub internal: bool,
}

impl Suggestion {
    /// Builds a suggestion from a submitted form. The first three inputs
    /// are the artist name, the album name and the links; a fourth input,
    /// when present and non-empty, is the notes. Any other field count is
    /// a validation error, rejected before any state changes.
    pub fn parse_response(
        user_id: u64,
        username: String,
        inputs: Vec<String>,
        internal: bool,
    ) -> (r: Result<Suggestion, Error>)
        ensures
            match r {
                Ok(s) => {
                    &&& 3 <= inputs@.len() <= 4
                    &&& s.user_id == user_id
                    &&& s.username@ == username@
                    &&& s.artist_name@ == inputs@[0]@
                    &&& s.album_name@ == inputs@[1]@
                    &&& s.links@ == inputs@[2]@
                    &&& s.internal == internal
                    &&& match s.notes {
                        Some(n) => inputs@.len() == 4 && inputs@[3]@.len() > 0 && n@
                            == inputs@[3]@,
                        None => inputs@.len() == 3 || (inputs@.len() == 4 && inputs@[3]@.len()
                            == 0),
                    }
                },
                Err(e) => {
                    &&& e == Error::Validation
                    &&& !(3 <= inputs@.len() <= 4)
                },
            },
    {
        if inputs.len() < 3 || inputs.len() > 4 {
            return Err(Error::Validation);
        }
        let notes = if inputs.len() == 4 {
            let n = inputs[3].clone();
            if n.as_str().is_empty() {
                None
            } else {
                Some(n)
            }
        } else {
            None
        };
        Ok(Suggestion {
            user_id,
            username,
            artist_name: inputs[0].clone(),
            album_name: inputs[1].clone(),
            links: inputs[2].clone(),
            notes,
            internal,
        })
    }
}

} // verus!
