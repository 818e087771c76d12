//! The count endpoint: its parameters and its response.
use vstd::prelude::*;
use crate::error::{ResponseError, decode_error, is_decode_error, is_malformed};
use crate::json::{JsonValue, get_member, get_str_member, json_document, member, parse_json, str_member};
use crate::query::{decimal, number_param, opt_text, push_number, push_opt_number, push_opt_text, text_param};
use crate::scalar::{get_number_member, number_member};

verus! {

/// The parameters of the count endpoint. The filters are those of the list
/// endpoint; there is no paging and no sort key.
pub struct RequestParameters {
    /// Output format: 1 CSV, 2 JSON, 3 XML.
    pub of: u8,
    /// Name of the holder of the certificate (partial match).
    pub nam: Option<String>,
    /// Certificate number.
    pub num: Option<String>,
    /// Model or type name (partial match).
    pub tn: Option<String>,
    /// Code of the certifying body.
    pub oc: Option<String>,
    /// First day of the date range, as YYYYMMDD.
    pub ds: Option<String>,
    /// Last day of the date range, as YYYYMMDD.
    pub de: Option<String>,
    /// 1: only certificates with attachments.
    pub afp: Option<u8>,
    /// 1: only equipment that meets the body SAR rules.
    pub bs: Option<u8>,
    /// Category of specified radio equipment.
    pub rec: Option<String>,
    /// Kind of certification.
    pub tec: Option<String>,
    /// Character set of the response: 1 UTF-8, 2 Shift_JIS.
    pub mc: u8,
}

/// The parameters as values: each text as its characters.
pub struct Params {
    pub of: u8,
    pub nam: Option<Seq<char>>,
    pub num: Option<Seq<char>>,
    pub tn: Option<Seq<char>>,
    pub oc: Option<Seq<char>>,
    pub ds: Option<Seq<char>>,
    pub de: Option<Seq<char>>,
    pub afp: Option<u8>,
    pub bs: Option<u8>,
    pub rec: Option<Seq<char>>,
    pub tec: Option<Seq<char>>,
    pub mc: u8,
}

impl View for RequestParameters {
    type V = Params;

    open spec fn view(&self) -> Params {
        Params {
            of: self.of,
            nam: opt_text(self.nam),
            num: opt_text(self.num),
            tn: opt_text(self.tn),
            oc: opt_text(self.oc),
            ds: opt_text(self.ds),
            de: opt_text(self.de),
            afp: self.afp,
            bs: self.bs,
            rec: opt_text(self.rec),
            tec: opt_text(self.tec),
            mc: self.mc,
        }
    }
}

/// The query of `p`: OF, then each filter that is present, then MC.
pub open spec fn query_of(p: Params) -> Seq<(Seq<char>, Seq<char>)> {
    seq![("OF"@, decimal(p.of as nat))] + text_param("NAM"@, p.nam) + text_param("NUM"@, p.num)
        + text_param("TN"@, p.tn) + text_param("OC"@, p.oc) + text_param("DS"@, p.ds)
        + text_param("DE"@, p.de) + number_param("AFP"@, p.afp) + number_param("BS"@, p.bs)
        + text_param("REC"@, p.rec) + text_param("TEC"@, p.tec) + seq![("MC"@, decimal(p.mc as nat))]
}

impl RequestParameters {
    /// JSON output in UTF-8, with no filter.
    pub fn new() -> (r: RequestParameters)
        ensures
            r@ == (Params {
                of: 2,
                nam: None,
                num: None,
                tn: None,
                oc: None,
                ds: None,
                de: None,
                afp: None,
                bs: None,
                rec: None,
                tec: None,
                mc: 1,
            }),
    {
        RequestParameters {
            of: 2,
            nam: None,
            num: None,
            tn: None,
            oc: None,
            ds: None,
            de: None,
            afp: None,
            bs: None,
            rec: None,
            tec: None,
            mc: 1,
        }
    }

    /// Sets the holder name filter. Nothing else changes.
    pub fn set_nam(&mut self, nam: &str)
        ensures
            final(self)@ == (Params { nam: Some(nam@), ..old(self)@ }),
    {
        self.nam = Some(nam.to_owned());
    }

    /// Sets the certificate number filter. Nothing else changes.
    pub fn set_num(&mut self, num: &str)
        ensures
            final(self)@ == (Params { num: Some(num@), ..old(self)@ }),
    {
        self.num = Some(num.to_owned());
    }

    /// Sets the model name filter. Nothing else changes.
    pub fn set_tn(&mut self, tn: &str)
        ensures
            final(self)@ == (Params { tn: Some(tn@), ..old(self)@ }),
    {
        self.tn = Some(tn.to_owned());
    }

    /// Sets the certifying body filter. Nothing else changes.
    pub fn set_oc(&mut self, oc: &str)
        ensures
            final(self)@ == (Params { oc: Some(oc@), ..old(self)@ }),
    {
        self.oc = Some(oc.to_owned());
    }

    /// Sets the first day of the date range. Nothing else changes.
    pub fn set_ds(&mut self, ds: &str)
        ensures
            final(self)@ == (Params { ds: Some(ds@), ..old(self)@ }),
    {
        self.ds = Some(ds.to_owned());
    }

    /// Sets the last day of the date range. Nothing else changes.
    pub fn set_de(&mut self, de: &str)
        ensures
            final(self)@ == (Params { de: Some(de@), ..old(self)@ }),
    {
        self.de = Some(de.to_owned());
    }

    /// Sets the attachment filter. Nothing else changes.
    pub fn set_afp(&mut self, afp: u8)
        ensures
            final(self)@ == (Params { afp: Some(afp), ..old(self)@ }),
    {
        self.afp = Some(afp);
    }

    /// Sets the body SAR filter. Nothing else changes.
    pub fn set_bs(&mut self, bs: u8)
        ensures
            final(self)@ == (Params { bs: Some(bs), ..old(self)@ }),
    {
        self.bs = Some(bs);
    }

    /// Sets the equipment category filter. Nothing else changes.
    pub fn set_rec(&mut self, rec: &str)
        ensures
            final(self)@ == (Params { rec: Some(rec@), ..old(self)@ }),
    {
        self.rec = Some(rec.to_owned());
    }

    /// Sets the certification kind filter. Nothing else changes.
    pub fn set_tec(&mut self, tec: &str)
        ensures
            final(self)@ == (Params { tec: Some(tec@), ..old(self)@ }),
    {
        self.tec = Some(tec.to_owned());
    }

    /// The query as key and value pairs, in the order of `query_of`; absent
    /// filters are left out.
    pub fn query_pairs(&self) -> (r: Vec<(String, String)>)
        ensures
            r.deep_view() == query_of(self@),
    {
        let mut pairs: Vec<(String, String)> = Vec::new();
        push_number(&mut pairs, "OF", self.of as u64);
        push_opt_text(&mut pairs, "NAM", &self.nam);
        push_opt_text(&mut pairs, "NUM", &self.num);
        push_opt_text(&mut pairs, "TN", &self.tn);
        push_opt_text(&mut pairs, "OC", &self.oc);
        push_opt_text(&mut pairs, "DS", &self.ds);
        push_opt_text(&mut pairs, "DE", &self.de);
        push_opt_number(&mut pairs, "AFP", self.afp);
        push_opt_number(&mut pairs, "BS", self.bs);
        push_opt_text(&mut pairs, "REC", &self.rec);
        push_opt_text(&mut pairs, "TEC", &self.tec);
        push_number(&mut pairs, "MC", self.mc as u64);
        assert(pairs.deep_view() =~= query_of(self@));
        pairs
    }
}

/// The response of the count endpoint.
pub struct Response {
    pub giteki_information: GitekiInformation,
    pub giteki: Giteki,
}

/// The header of a response: when the data was last updated, and the total
/// number of certificates.
pub struct GitekiInformation {
    pub last_update_date: String,
    pub total_count: u32,
}

/// The number of certificates that the filters select.
pub struct Giteki {
    pub count: u32,
}

/// A count response as values.
pub struct Counts {
    pub last_update_date: Seq<char>,
    pub total_count: nat,
    pub count: nat,
}

impl View for Response {
    type V = Counts;

    open spec fn view(&self) -> Counts {
        Counts {
            last_update_date: self.giteki_information.last_update_date@,
            total_count: self.giteki_information.total_count as nat,
            count: self.giteki.count as nat,
        }
    }
}

/// `n`, where it is present and fits in a `u32`.
pub open spec fn within_u32(n: Option<nat>) -> Option<nat> {
    match n {
        Some(x) => if x <= u32::MAX {
            Some(x)
        } else {
            None
        },
        None => None,
    }
}

/// What the count endpoint's document `doc` decodes to, or the name of the
/// first member, in the order of the fields, that is missing or malformed.
pub open spec fn decoded(doc: JsonValue) -> Result<Counts, Seq<char>> {
    match member(doc, "gitekiInformation"@) {
        None => Err("gitekiInformation"@),
        Some(info) => match str_member(info, "lastUpdateDate"@) {
            None => Err("lastUpdateDate"@),
            Some(date) => match within_u32(number_member(info, "totalCount"@)) {
                None => Err("totalCount"@),
                Some(total) => match member(doc, "giteki"@) {
                    None => Err("giteki"@),
                    Some(g) => match within_u32(number_member(g, "count"@)) {
                        None => Err("count"@),
                        Some(count) => Ok(
                            Counts { last_update_date: date, total_count: total, count: count },
                        ),
                    },
                },
            },
        },
    }
}

/// `r` is what `d` says: the response it holds, or the decode error of the
/// count endpoint that names its field.
pub open spec fn decodes_as(r: Result<Response, ResponseError>, d: Result<Counts, Seq<char>>) -> bool {
    match d {
        Ok(c) => r matches Ok(resp) && resp@ == c,
        Err(f) => r matches Err(e) && is_decode_error(e, "count"@, f),
    }
}

fn u32_member(v: &JsonValue, key: &str) -> (r: Option<u32>)
    ensures
        match r {
            Some(x) => within_u32(number_member(*v, key@)) == Some(x as nat),
            None => within_u32(number_member(*v, key@)) is None,
        },
{
    match get_number_member(v, key) {
        Some(n) => if n <= u32::MAX as u64 {
            Some(n as u32)
        } else {
            None
        },
        None => None,
    }
}

/// Decodes the count endpoint's parsed document.
pub fn decode_response(doc: &JsonValue) -> (r: Result<Response, ResponseError>)
    ensures
        decodes_as(r, decoded(*doc)),
{
    let info = match get_member(doc, "gitekiInformation") {
        Some(x) => x,
        None => return Err(decode_error("count", "gitekiInformation")),
    };
    let date = match get_str_member(info, "lastUpdateDate") {
        Some(x) => x,
        None => return Err(decode_error("count", "lastUpdateDate")),
    };
    let total = match u32_member(info, "totalCount") {
        Some(x) => x,
        None => return Err(decode_error("count", "totalCount")),
    };
    let g = match get_member(doc, "giteki") {
        Some(x) => x,
        None => return Err(decode_error("count", "giteki")),
    };
    let count = match u32_member(g, "count") {
        Some(x) => x,
        None => return Err(decode_error("count", "count")),
    };
    Ok(
        Response {
            giteki_information: GitekiInformation { last_update_date: date, total_count: total },
            giteki: Giteki { count },
        },
    )
}

/// Parses the body of a count response; it needs no repair.
pub fn parse_response(text: &str) -> (r: Result<Response, ResponseError>)
    ensures
        match json_document(text@) {
            None => r matches Err(e) && is_malformed(e, text@),
            Some(doc) => decodes_as(r, decoded(doc)),
        },
{
    match parse_json(text) {
        Some(doc) => decode_response(&doc),
        None => Err(ResponseError::Malformed(text.to_owned())),
    }
}

/// A count document round-trips field for field: it decodes to a given
/// last-update date, total count and count exactly when the header member
/// holds that date and total, and the count member holds that count. The
/// total and the count are read from their own members, so equal values in
/// the two are never taken one for the other.
pub proof fn lemma_count_round_trip(doc: JsonValue, c: Counts)
    ensures
        decoded(doc) == Ok::<Counts, Seq<char>>(c) <==> (exists|info: JsonValue, g: JsonValue|
            member(doc, "gitekiInformation"@) == Some(info) && member(doc, "giteki"@) == Some(g)
                && str_member(info, "lastUpdateDate"@) == Some(c.last_update_date)
                && number_member(info, "totalCount"@) == Some(c.total_count) && c.total_count
                <= u32::MAX && number_member(g, "count"@) == Some(c.count) && c.count <= u32::MAX),
{
    if decoded(doc) == Ok::<Counts, Seq<char>>(c) {
        let info = member(doc, "gitekiInformation"@).unwrap();
        let g = member(doc, "giteki"@).unwrap();
        assert(member(doc, "giteki"@) == Some(g));
    }
}

} // verus!
