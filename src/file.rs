//! The attachment endpoint: the parameters that locate a certificate's
//! attached PDF.
use vstd::prelude::*;
use crate::query::{number_param, push_opt_number, push_pair};

verus! {

/// The parameters of the attachment endpoint. A file number without a
/// category is accepted here; the service is the one to refuse it.
pub struct RequestParameters {
    /// Attachment key, from a record of the list endpoint.
    pub afk: String,
    /// Attachment category: 1 photographs of the exterior, 2 results of the
    /// characteristics test.
    pub aft: Option<u8>,
    /// Number of the file within its category.
    pub afn: Option<u8>,
}

/// The parameters as values.
pub struct Params {
    pub afk: Seq<char>,
    pub aft: Option<u8>,
    pub afn: Option<u8>,
}

impl View for RequestParameters {
    type V = Params;

    open spec fn view(&self) -> Params {
        Params { afk: self.afk@, aft: self.aft, afn: self.afn }
    }
}

/// The query of `p`: AFK, then AFT and AFN where present.
pub open spec fn query_of(p: Params) -> Seq<(Seq<char>, Seq<char>)> {
    seq![("AFK"@, p.afk)] + number_param("AFT"@, p.aft) + number_param("AFN"@, p.afn)
}

impl RequestParameters {
    /// The parameters for the attachments of key `afk`, with no category and
    /// no file number.
    pub fn new(afk: &str) -> (r: RequestParameters)
        ensures
            r@ == (Params { afk: afk@, aft: None, afn: None }),
    {
        RequestParameters { afk: afk.to_owned(), aft: None, afn: None }
    }

    /// Sets the attachment category. Nothing else changes.
    pub fn set_aft(&mut self, aft: u8)
        ensures
            final(self)@ == (Params { aft: Some(aft), ..old(self)@ }),
    {
        self.aft = Some(aft);
    }

    /// Sets the file number. Nothing else changes.
    pub fn set_afn(&mut self, afn: u8)
        ensures
            final(self)@ == (Params { afn: Some(afn), ..old(self)@ }),
    {
        self.afn = Some(afn);
    }

    /// The query as key and value pairs, in the order of `query_of`.
    pub fn query_pairs(&self) -> (r: Vec<(String, String)>)
        ensures
            r.deep_view() == query_of(self@),
    {
        let mut pairs: Vec<(String, String)> = Vec::new();
        push_pair(&mut pairs, "AFK", self.afk.clone());
        push_opt_number(&mut pairs, "AFT", self.aft);
        push_opt_number(&mut pairs, "AFN", self.afn);
        assert(pairs.deep_view() =~= query_of(self@));
        pairs
    }
}

} // verus!
