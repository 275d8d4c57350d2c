//! The JSON request envelope shared by the base64 and remote-fetch routes: a
//! record of two string fields, `url` and `image`, each empty when absent.
//! The transport layer deserializes the request body into this shape and
//! hands it over; a body that is not valid JSON is handed over as absent.

use vstd::prelude::*;

verus! {

/// The request envelope of the base64 and remote-fetch routes.
pub struct Envelope {
    pub url: String,
    pub image: String,
}

impl Default for Envelope {
    /// The envelope of an empty JSON object: both fields empty.
    fn default() -> (r: Self)
        ensures
            r.url@ == Seq::<char>::empty(),
            r.image@ == Seq::<char>::empty(),
    {
        Envelope { url: String::new(), image: String::new() }
    }
}

} // verus!
