//! The list endpoint: its parameters and its response, which is repaired
//! before it is parsed.
use vstd::prelude::*;
use crate::error::{ResponseError, decode_error, is_decode_error, is_malformed};
use crate::json::{
    JsonValue, get_member, get_opt_str_member, get_str_member, json_document, member, opt_str_member,
    parse_json, str_member,
};
use crate::query::{decimal, number_param, opt_text, push_number, push_opt_number, push_opt_text, text_param};
use crate::repair::{repair, repaired};
use crate::scalar::{get_number_member, number_member};

verus! {

/// The parameters of the list endpoint.
pub struct RequestParameters {
    /// Index of the first record to return.
    pub sc: u32,
    /// Page size: 1 to 7 for 10, 20, 30, 50, 100, 500 or 1000 records.
    pub dc: u8,
    /// Output format: 1 CSV, 2 JSON, 3 XML.
    pub of: u8,
    /// Name of the holder of the certificate (partial match).
    pub nam: Option<String>,
    /// Certificate number.
    pub num: Option<String>,
    /// Model or type name (partial match).
    pub tn: Option<String>,
    /// Code of the certifying body.
    pub oc: Option<String>,
    /// First day of the date range, as YYYYMMDD.
    pub ds: Option<String>,
    /// Last day of the date range, as YYYYMMDD.
    pub de: Option<String>,
    /// 1: only certificates with attachments.
    pub afp: Option<u8>,
    /// 1: only equipment that meets the body SAR rules.
    pub bs: Option<u8>,
    /// Category of specified radio equipment.
    pub rec: Option<String>,
    /// Kind of certification.
    pub tec: Option<String>,
    /// Sort key.
    pub sk: u8,
    /// Character set of the response: 1 UTF-8, 2 Shift_JIS.
    pub mc: u8,
}

/// The parameters as values: each text as its characters.
pub struct Params {
    pub sc: u32,
    pub dc: u8,
    pub of: u8,
    pub nam: Option<Seq<char>>,
    pub num: Option<Seq<char>>,
    pub tn: Option<Seq<char>>,
    pub oc: Option<Seq<char>>,
    pub ds: Option<Seq<char>>,
    pub de: Option<Seq<char>>,
    pub afp: Option<u8>,
    pub bs: Option<u8>,
    pub rec: Option<Seq<char>>,
    pub tec: Option<Seq<char>>,
    pub sk: u8,
    pub mc: u8,
}

impl View for RequestParameters {
    type V = Params;

    open spec fn view(&self) -> Params {
        Params {
            sc: self.sc,
            dc: self.dc,
            of: self.of,
            nam: opt_text(self.nam),
            num: opt_text(self.num),
            tn: opt_text(self.tn),
            oc: opt_text(self.oc),
            ds: opt_text(self.ds),
            de: opt_text(self.de),
            afp: self.afp,
            bs: self.bs,
            rec: opt_text(self.rec),
            tec: opt_text(self.tec),
            sk: self.sk,
            mc: self.mc,
        }
    }
}

/// The text filters of `p` on holder, number, model, body and dates that
/// are present, in the order of the fields.
pub open spec fn text_filters_of(p: Params) -> Seq<(Seq<char>, Seq<char>)> {
    text_param("NAM"@, p.nam) + text_param("NUM"@, p.num) + text_param("TN"@, p.tn)
        + text_param("OC"@, p.oc) + text_param("DS"@, p.ds) + text_param("DE"@, p.de)
}

/// The remaining filters of `p` that are present, in the order of the fields.
pub open spec fn other_filters_of(p: Params) -> Seq<(Seq<char>, Seq<char>)> {
    number_param("AFP"@, p.afp) + number_param("BS"@, p.bs) + text_param("REC"@, p.rec)
        + text_param("TEC"@, p.tec)
}

/// The filters of `p` that are present, in the order of the fields.
pub open spec fn filters_of(p: Params) -> Seq<(Seq<char>, Seq<char>)> {
    text_filters_of(p) + other_filters_of(p)
}

/// The query of `p`: SC, DC and OF, then each filter that is present, then
/// SK and MC.
pub open spec fn query_of(p: Params) -> Seq<(Seq<char>, Seq<char>)> {
    seq![("SC"@, decimal(p.sc as nat)), ("DC"@, decimal(p.dc as nat)), ("OF"@, decimal(p.of as nat))]
        + filters_of(p) + seq![("SK"@, decimal(p.sk as nat)), ("MC"@, decimal(p.mc as nat))]
}

impl RequestParameters {
    /// From the first record, 100 records a page, JSON output sorted by the
    /// first key, in UTF-8, with no filter.
    pub fn new() -> (r: RequestParameters)
        ensures
            r@ == (Params {
                sc: 0,
                dc: 5,
                of: 2,
                nam: None,
                num: None,
                tn: None,
                oc: None,
                ds: None,
                de: None,
                afp: None,
                bs: None,
                rec: None,
                tec: None,
                sk: 1,
                mc: 1,
            }),
    {
        RequestParameters {
            sc: 0,
            dc: 5,
            of: 2,
            nam: None,
            num: None,
            tn: None,
            oc: None,
            ds: None,
            de: None,
            afp: None,
            bs: None,
            rec: None,
            tec: None,
            sk: 1,
            mc: 1,
        }
    }

    /// Sets the index of the first record. Nothing else changes.
    pub fn set_sc(&mut self, sc: u32)
        ensures
            final(self)@ == (Params { sc: sc, ..old(self)@ }),
    {
        self.sc = sc;
    }

    /// Sets the page size code. Nothing else changes.
    pub fn set_dc(&mut self, dc: u8)
        ensures
            final(self)@ == (Params { dc: dc, ..old(self)@ }),
    {
        self.dc = dc;
    }

    /// Sets the holder name filter. Nothing else changes.
    pub fn set_nam(&mut self, nam: &str)
        ensures
            final(self)@ == (Params { nam: Some(nam@), ..old(self)@ }),
    {
        self.nam = Some(nam.to_owned());
    }

    /// Sets the certificate number filter. Nothing else changes.
    pub fn set_num(&mut self, num: &str)
        ensures
            final(self)@ == (Params { num: Some(num@), ..old(self)@ }),
    {
        self.num = Some(num.to_owned());
    }

    /// Sets the model name filter. Nothing else changes.
    pub fn set_tn(&mut self, tn: &str)
        ensures
            final(self)@ == (Params { tn: Some(tn@), ..old(self)@ }),
    {
        self.tn = Some(tn.to_owned());
    }

    /// Sets the certifying body filter. Nothing else changes.
    pub fn set_oc(&mut self, oc: &str)
        ensures
            final(self)@ == (Params { oc: Some(oc@), ..old(self)@ }),
    {
        self.oc = Some(oc.to_owned());
    }

    /// Sets the first day of the date range. Nothing else changes.
    pub fn set_ds(&mut self, ds: &str)
        ensures
            final(self)@ == (Params { ds: Some(ds@), ..old(self)@ }),
    {
        self.ds = Some(ds.to_owned());
    }

    /// Sets the last day of the date range. Nothing else changes.
    pub fn set_de(&mut self, de: &str)
        ensures
            final(self)@ == (Params { de: Some(de@), ..old(self)@ }),
    {
        self.de = Some(de.to_owned());
    }

    /// Sets the attachment filter. Nothing else changes.
    pub fn set_afp(&mut self, afp: u8)
        ensures
            final(self)@ == (Params { afp: Some(afp), ..old(self)@ }),
    {
        self.afp = Some(afp);
    }

    /// Sets the body SAR filter. Nothing else changes.
    pub fn set_bs(&mut self, bs: u8)
        ensures
            final(self)@ == (Params { bs: Some(bs), ..old(self)@ }),
    {
        self.bs = Some(bs);
    }

    /// Sets the equipment category filter. Nothing else changes.
    pub fn set_rec(&mut self, rec: &str)
        ensures
            final(self)@ == (Params { rec: Some(rec@), ..old(self)@ }),
    {
        self.rec = Some(rec.to_owned());
    }

    /// Sets the certification kind filter. Nothing else changes.
    pub fn set_tec(&mut self, tec: &str)
        ensures
            final(self)@ == (Params { tec: Some(tec@), ..old(self)@ }),
    {
        self.tec = Some(tec.to_owned());
    }

    /// Sets the sort key. Nothing else changes.
    pub fn set_sk(&mut self, sk: u8)
        ensures
            final(self)@ == (Params { sk: sk, ..old(self)@ }),
    {
        self.sk = sk;
    }

    fn push_text_filters(&self, pairs: &mut Vec<(String, String)>)
        ensures
            final(pairs).deep_view() == old(pairs).deep_view() + text_filters_of(self@),
    {
        push_opt_text(pairs, "NAM", &self.nam);
        push_opt_text(pairs, "NUM", &self.num);
        push_opt_text(pairs, "TN", &self.tn);
        push_opt_text(pairs, "OC", &self.oc);
        push_opt_text(pairs, "DS", &self.ds);
        push_opt_text(pairs, "DE", &self.de);
        assert(pairs.deep_view() =~= old(pairs).deep_view() + text_filters_of(self@));
    }

    fn push_other_filters(&self, pairs: &mut Vec<(String, String)>)
        ensures
            final(pairs).deep_view() == old(pairs).deep_view() + other_filters_of(self@),
    {
        push_opt_number(pairs, "AFP", self.afp);
        push_opt_number(pairs, "BS", self.bs);
        push_opt_text(pairs, "REC", &self.rec);
        push_opt_text(pairs, "TEC", &self.tec);
        assert(pairs.deep_view() =~= old(pairs).deep_view() + other_filters_of(self@));
    }

    /// The query as key and value pairs, in the order of `query_of`; absent
    /// filters are left out.
    pub fn query_pairs(&self) -> (r: Vec<(String, String)>)
        ensures
            r.deep_view() == query_of(self@),
    {
        let mut pairs: Vec<(String, String)> = Vec::new();
        push_number(&mut pairs, "SC", self.sc as u64);
        push_number(&mut pairs, "DC", self.dc as u64);
        push_number(&mut pairs, "OF", self.of as u64);
        self.push_text_filters(&mut pairs);
        self.push_other_filters(&mut pairs);
        push_number(&mut pairs, "SK", self.sk as u64);
        push_number(&mut pairs, "MC", self.mc as u64);
        assert(pairs.deep_view() =~= query_of(self@));
        pairs
    }
}

/// The response of the list endpoint, after repair.
pub struct Response {
    pub giteki_information: GitekiInformation,
    /// The records of this page; none where the member is absent.
    pub giteki: Vec<GitekiInfo>,
}

/// The header of a response: when the data was last updated, and how many
/// records the filters select over all pages.
pub struct GitekiInformation {
    pub last_update_date: String,
    pub total_count: usize,
}

/// One certificate. Only its sequence number is required; a text member
/// that is absent or null is `None`.
pub struct GitekiInfo {
    /// Sequence number of the record.
    pub no: usize,
    /// Kind of certification.
    pub tech_code: Option<String>,
    /// Certificate number.
    pub number: Option<String>,
    /// Date of the certificate.
    pub date: Option<String>,
    /// Name of the holder.
    pub name: Option<String>,
    /// Code of the equipment category.
    pub radio_equipment_code: Option<String>,
    /// Model or type name.
    pub equipment_type_name: Option<String>,
    /// Radio wave type, frequency and power.
    pub elec_wave: Option<String>,
    /// Spurious emission rules that apply.
    pub spurious_rules: Option<String>,
    /// Body SAR compliance.
    pub body_sar: Option<String>,
    /// Free-text note.
    pub note: Option<String>,
    /// Name of the certifying body.
    pub organ_name: Option<String>,
    /// File names of the attachments.
    pub attachment_file_name: Option<String>,
    /// Key for the attachment endpoint.
    pub attachment_file_key: Option<String>,
    /// Number of attachments of category 1.
    pub attachment_file_cnt_for_cd_1: Option<String>,
    /// Number of attachments of category 2.
    pub attachment_file_cnt_for_cd_2: Option<String>,
}

/// A record as values.
pub struct Record {
    pub no: nat,
    pub tech_code: Option<Seq<char>>,
    pub number: Option<Seq<char>>,
    pub date: Option<Seq<char>>,
    pub name: Option<Seq<char>>,
    pub radio_equipment_code: Option<Seq<char>>,
    pub equipment_type_name: Option<Seq<char>>,
    pub elec_wave: Option<Seq<char>>,
    pub spurious_rules: Option<Seq<char>>,
    pub body_sar: Option<Seq<char>>,
    pub note: Option<Seq<char>>,
    pub organ_name: Option<Seq<char>>,
    pub attachment_file_name: Option<Seq<char>>,
    pub attachment_file_key: Option<Seq<char>>,
    pub attachment_file_cnt_for_cd_1: Option<Seq<char>>,
    pub attachment_file_cnt_for_cd_2: Option<Seq<char>>,
}

impl View for GitekiInfo {
    type V = Record;

    open spec fn view(&self) -> Record {
        Record {
            no: self.no as nat,
            tech_code: opt_text(self.tech_code),
            number: opt_text(self.number),
            date: opt_text(self.date),
            name: opt_text(self.name),
            radio_equipment_code: opt_text(self.radio_equipment_code),
            equipment_type_name: opt_text(self.equipment_type_name),
            elec_wave: opt_text(self.elec_wave),
            spurious_rules: opt_text(self.spurious_rules),
            body_sar: opt_text(self.body_sar),
            note: opt_text(self.note),
            organ_name: opt_text(self.organ_name),
            attachment_file_name: opt_text(self.attachment_file_name),
            attachment_file_key: opt_text(self.attachment_file_key),
            attachment_file_cnt_for_cd_1: opt_text(self.attachment_file_cnt_for_cd_1),
            attachment_file_cnt_for_cd_2: opt_text(self.attachment_file_cnt_for_cd_2),
        }
    }
}

/// A list response as values.
pub struct Listing {
    pub last_update_date: Seq<char>,
    pub total_count: nat,
    pub records: Seq<Record>,
}

impl View for Response {
    type V = Listing;

    open spec fn view(&self) -> Listing {
        Listing {
            last_update_date: self.giteki_information.last_update_date@,
            total_count: self.giteki_information.total_count as nat,
            records: self.giteki@.map_values(|x: GitekiInfo| x@),
        }
    }
}

/// `n`, where it is present and fits in a `usize`.
pub open spec fn within_usize(n: Option<nat>) -> Option<nat> {
    match n {
        Some(x) => if x <= usize::MAX {
            Some(x)
        } else {
            None
        },
        None => None,
    }
}

/// What the record `v` decodes to, or the name of the first member, in the
/// order of the fields, that fails: `no` where it is not a number that fits
/// in a `usize`, a text member where it holds neither a string nor null.
pub open spec fn record_of(v: JsonValue) -> Result<Record, Seq<char>> {
    if within_usize(number_member(v, "no"@)) is None {
        Err("no"@)
    } else if opt_str_member(v, "techCode"@) is None {
        Err("techCode"@)
    } else if opt_str_member(v, "number"@) is None {
        Err("number"@)
    } else if opt_str_member(v, "date"@) is None {
        Err("date"@)
    } else if opt_str_member(v, "name"@) is None {
        Err("name"@)
    } else if opt_str_member(v, "radioEquipmentCode"@) is None {
        Err("radioEquipmentCode"@)
    } else if opt_str_member(v, "typeName"@) is None {
        Err("typeName"@)
    } else if opt_str_member(v, "elecWave"@) is None {
        Err("elecWave"@)
    } else if opt_str_member(v, "spuriousRules"@) is None {
        Err("spuriousRules"@)
    } else if opt_str_member(v, "bodySar"@) is None {
        Err("bodySar"@)
    } else if opt_str_member(v, "note"@) is None {
        Err("note"@)
    } else if opt_str_member(v, "organName"@) is None {
        Err("organName"@)
    } else if opt_str_member(v, "attachmentFileName"@) is None {
        Err("attachmentFileName"@)
    } else if opt_str_member(v, "attachmentFileKey"@) is None {
        Err("attachmentFileKey"@)
    } else if opt_str_member(v, "attachmentFileCntForCd1"@) is None {
        Err("attachmentFileCntForCd1"@)
    } else if opt_str_member(v, "attachmentFileCntForCd2"@) is None {
        Err("attachmentFileCntForCd2"@)
    } else {
        Ok(
            Record {
                no: within_usize(number_member(v, "no"@)).unwrap(),
                tech_code: opt_str_member(v, "techCode"@).unwrap(),
                number: opt_str_member(v, "number"@).unwrap(),
                date: opt_str_member(v, "date"@).unwrap(),
                name: opt_str_member(v, "name"@).unwrap(),
                radio_equipment_code: opt_str_member(v, "radioEquipmentCode"@).unwrap(),
                equipment_type_name: opt_str_member(v, "typeName"@).unwrap(),
                elec_wave: opt_str_member(v, "elecWave"@).unwrap(),
                spurious_rules: opt_str_member(v, "spuriousRules"@).unwrap(),
                body_sar: opt_str_member(v, "bodySar"@).unwrap(),
                note: opt_str_member(v, "note"@).unwrap(),
                organ_name: opt_str_member(v, "organName"@).unwrap(),
                attachment_file_name: opt_str_member(v, "attachmentFileName"@).unwrap(),
                attachment_file_key: opt_str_member(v, "attachmentFileKey"@).unwrap(),
                attachment_file_cnt_for_cd_1: opt_str_member(v, "attachmentFileCntForCd1"@).unwrap(),
                attachment_file_cnt_for_cd_2: opt_str_member(v, "attachmentFileCntForCd2"@).unwrap(),
            },
        )
    }
}

/// What the records `items` decode to, or the field that fails first.
pub open spec fn records_of(items: Seq<JsonValue>) -> Result<Seq<Record>, Seq<char>>
    decreases items.len(),
{
    if items.len() == 0 {
        Ok(seq![])
    } else {
        match records_of(items.drop_last()) {
            Err(f) => Err(f),
            Ok(rs) => match record_of(items.last()) {
                Err(f) => Err(f),
                Ok(x) => Ok(rs.push(x)),
            },
        }
    }
}

/// What the list endpoint's repaired document `doc` decodes to, or the name
/// of the first member that is missing or malformed. An absent `giteki`
/// member means no records.
pub open spec fn decoded(doc: JsonValue) -> Result<Listing, Seq<char>> {
    match member(doc, "gitekiInformation"@) {
        None => Err("gitekiInformation"@),
        Some(info) => match str_member(info, "lastUpdateDate"@) {
            None => Err("lastUpdateDate"@),
            Some(date) => match within_usize(number_member(info, "totalCount"@)) {
                None => Err("totalCount"@),
                Some(total) => match member(doc, "giteki"@) {
                    None => Ok(Listing { last_update_date: date, total_count: total, records: seq![] }),
                    Some(JsonValue::Array(items)) => match records_of(items@) {
                        Err(f) => Err(f),
                        Ok(rs) => Ok(Listing { last_update_date: date, total_count: total, records: rs }),
                    },
                    Some(_) => Err("giteki"@),
                },
            },
        },
    }
}

/// `r` is what `d` says: the response it holds, or the decode error of the
/// list endpoint that names its field.
pub open spec fn decodes_as(r: Result<Response, ResponseError>, d: Result<Listing, Seq<char>>) -> bool {
    match d {
        Ok(l) => r matches Ok(resp) && resp@ == l,
        Err(f) => r matches Err(e) && is_decode_error(e, "list"@, f),
    }
}

fn usize_member(v: &JsonValue, key: &str) -> (r: Option<usize>)
    ensures
        match r {
            Some(x) => within_usize(number_member(*v, key@)) == Some(x as nat),
            None => within_usize(number_member(*v, key@)) is None,
        },
{
    match get_number_member(v, key) {
        Some(n) => if n <= usize::MAX as u64 {
            Some(n as usize)
        } else {
            None
        },
        None => None,
    }
}

/// Decodes one record of the list.
pub fn decode_record(v: &JsonValue) -> (r: Result<GitekiInfo, ResponseError>)
    ensures
        match record_of(*v) {
            Ok(x) => r matches Ok(info) && info@ == x,
            Err(f) => r matches Err(e) && is_decode_error(e, "list"@, f),
        },
{
    let no = match usize_member(v, "no") {
        Some(x) => x,
        None => return Err(decode_error("list", "no")),
    };
    let tech_code = match get_opt_str_member(v, "techCode") {
        Some(x) => x,
        None => return Err(decode_error("list", "techCode")),
    };
    let number = match get_opt_str_member(v, "number") {
        Some(x) => x,
        None => return Err(decode_error("list", "number")),
    };
    let date = match get_opt_str_member(v, "date") {
        Some(x) => x,
        None => return Err(decode_error("list", "date")),
    };
    let name = match get_opt_str_member(v, "name") {
        Some(x) => x,
        None => return Err(decode_error("list", "name")),
    };
    let radio_equipment_code = match get_opt_str_member(v, "radioEquipmentCode") {
        Some(x) => x,
        None => return Err(decode_error("list", "radioEquipmentCode")),
    };
    let equipment_type_name = match get_opt_str_member(v, "typeName") {
        Some(x) => x,
        None => return Err(decode_error("list", "typeName")),
    };
    let elec_wave = match get_opt_str_member(v, "elecWave") {
        Some(x) => x,
        None => return Err(decode_error("list", "elecWave")),
    };
    let spurious_rules = match get_opt_str_member(v, "spuriousRules") {
        Some(x) => x,
        None => return Err(decode_error("list", "spuriousRules")),
    };
    let body_sar = match get_opt_str_member(v, "bodySar") {
        Some(x) => x,
        None => return Err(decode_error("list", "bodySar")),
    };
    let note = match get_opt_str_member(v, "note") {
        Some(x) => x,
        None => return Err(decode_error("list", "note")),
    };
    let organ_name = match get_opt_str_member(v, "organName") {
        Some(x) => x,
        None => return Err(decode_error("list", "organName")),
    };
    let attachment_file_name = match get_opt_str_member(v, "attachmentFileName") {
        Some(x) => x,
        None => return Err(decode_error("list", "attachmentFileName")),
    };
    let attachment_file_key = match get_opt_str_member(v, "attachmentFileKey") {
        Some(x) => x,
        None => return Err(decode_error("list", "attachmentFileKey")),
    };
    let attachment_file_cnt_for_cd_1 = match get_opt_str_member(v, "attachmentFileCntForCd1") {
        Some(x) => x,
        None => return Err(decode_error("list", "attachmentFileCntForCd1")),
    };
    let attachment_file_cnt_for_cd_2 = match get_opt_str_member(v, "attachmentFileCntForCd2") {
        Some(x) => x,
        None => return Err(decode_error("list", "attachmentFileCntForCd2")),
    };
    Ok(
        GitekiInfo {
            no,
            tech_code,
            number,
            date,
            name,
            radio_equipment_code,
            equipment_type_name,
            elec_wave,
            spurious_rules,
            body_sar,
            note,
            organ_name,
            attachment_file_name,
            attachment_file_key,
            attachment_file_cnt_for_cd_1,
            attachment_file_cnt_for_cd_2,
        },
    )
}
/// Decodes the records `items` in order, stopping at the first that fails.
pub fn decode_records(items: &Vec<JsonValue>) -> (r: Result<Vec<GitekiInfo>, ResponseError>)
    ensures
        match records_of(items@) {
            Ok(rs) => r matches Ok(v) && v@.map_values(|x: GitekiInfo| x@) == rs,
            Err(f) => r matches Err(e) && is_decode_error(e, "list"@, f),
        },
{
    let mut out: Vec<GitekiInfo> = Vec::new();
    let mut i: usize = 0;
    assert(items@.subrange(0, 0) =~= Seq::<JsonValue>::empty());
    assert(out@.map_values(|x: GitekiInfo| x@) =~= Seq::<Record>::empty());
    while i < items.len()
        invariant
            i <= items@.len(),
            records_of(items@.subrange(0, i as int)) == Ok::<Seq<Record>, Seq<char>>(
                out@.map_values(|x: GitekiInfo| x@),
            ),
        decreases items@.len() - i,
    {
        let ghost prefix = items@.subrange(0, i + 1);
        assert(prefix.drop_last() =~= items@.subrange(0, i as int));
        assert(prefix.last() == items@[i as int]);
        match decode_record(&items[i]) {
            Ok(x) => {
                let ghost before = out@;
                out.push(x);
                assert(out@.map_values(|y: GitekiInfo| y@) =~= before.map_values(
                    |y: GitekiInfo| y@,
                ).push(x@));
            },
            Err(e) => {
                proof {
                    lemma_records_failure_persists(items@, i as int + 1);
                }
                return Err(e);
            },
        }
        i += 1;
    }
    assert(items@.subrange(0, items@.len() as int) =~= items@);
    Ok(out)
}

/// Once a prefix of the records fails, every longer prefix fails on the same
/// field.
proof fn lemma_records_failure_persists(items: Seq<JsonValue>, n: int)
    requires
        0 <= n <= items.len(),
        records_of(items.subrange(0, n)) is Err,
    ensures
        records_of(items) == records_of(items.subrange(0, n)),
    decreases items.len() - n,
{
    if n < items.len() {
        let longer = items.subrange(0, n + 1);
        assert(longer.drop_last() =~= items.subrange(0, n));
        lemma_records_failure_persists(items, n + 1);
    } else {
        assert(items.subrange(0, n) =~= items);
    }
}

/// Decodes the list endpoint's repaired and parsed document.
pub fn decode_response(doc: &JsonValue) -> (r: Result<Response, ResponseError>)
    ensures
        decodes_as(r, decoded(*doc)),
{
    let info = match get_member(doc, "gitekiInformation") {
        Some(x) => x,
        None => return Err(decode_error("list", "gitekiInformation")),
    };
    let date = match get_str_member(info, "lastUpdateDate") {
        Some(x) => x,
        None => return Err(decode_error("list", "lastUpdateDate")),
    };
    let total = match usize_member(info, "totalCount") {
        Some(x) => x,
        None => return Err(decode_error("list", "totalCount")),
    };
    let records = match get_member(doc, "giteki") {
        None => {
            let v: Vec<GitekiInfo> = Vec::new();
            assert(v@.map_values(|x: GitekiInfo| x@) =~= Seq::<Record>::empty());
            v
        },
        Some(JsonValue::Array(items)) => match decode_records(items) {
            Ok(v) => v,
            Err(e) => return Err(e),
        },
        Some(_) => return Err(decode_error("list", "giteki")),
    };
    Ok(
        Response {
            giteki_information: GitekiInformation { last_update_date: date, total_count: total },
            giteki: records,
        },
    )
}

/// Repairs the body of a list response, then parses and decodes it. Where
/// the repaired text is not JSON, the error carries that text.
pub fn parse_response(text: &str) -> (r: Result<Response, ResponseError>)
    ensures
        match json_document(repaired(text@)) {
            None => r matches Err(e) && is_malformed(e, repaired(text@)),
            Some(doc) => decodes_as(r, decoded(doc)),
        },
{
    let fixed = repair(text);
    match parse_json(fixed.as_str()) {
        Some(doc) => decode_response(&doc),
        None => Err(ResponseError::Malformed(fixed)),
    }
}

} // verus!
