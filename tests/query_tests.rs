use giteki::{list, num};
use giteki::query::decimal_string;

fn pairs_of(v: &[(&str, &str)]) -> Vec<(String, String)> {
    v.iter().map(|(k, x)| (k.to_string(), x.to_string())).collect()
}

fn keys(v: &[(String, String)]) -> Vec<String> {
    v.iter().map(|(k, _)| k.clone()).collect()
}

#[test]
fn list_query_with_name_only() {
    let mut q = list::RequestParameters::new();
    q.set_nam("google");
    let pairs = q.query_pairs();
    assert!(pairs.contains(&("NAM".to_string(), "google".to_string())));
    assert!(pairs.contains(&("DC".to_string(), "5".to_string())));
    assert!(pairs.contains(&("OF".to_string(), "2".to_string())));
    assert!(pairs.contains(&("SK".to_string(), "1".to_string())));
    assert!(pairs.contains(&("MC".to_string(), "1".to_string())));
    let ks = keys(&pairs);
    for absent in ["NUM", "TN", "OC", "DS", "DE", "AFP", "BS", "REC", "TEC"] {
        assert!(!ks.contains(&absent.to_string()), "{} should be absent", absent);
    }
    assert_eq!(
        pairs,
        pairs_of(&[("SC", "0"), ("DC", "5"), ("OF", "2"), ("NAM", "google"), ("SK", "1"), ("MC", "1")])
    );
}

#[test]
fn list_query_defaults() {
    let q = list::RequestParameters::new();
    assert_eq!(q.sc, 0);
    assert_eq!(q.dc, 5);
    assert_eq!(q.of, 2);
    assert_eq!(q.sk, 1);
    assert_eq!(q.mc, 1);
    assert!(q.nam.is_none() && q.tec.is_none() && q.afp.is_none());
    assert_eq!(
        q.query_pairs(),
        pairs_of(&[("SC", "0"), ("DC", "5"), ("OF", "2"), ("SK", "1"), ("MC", "1")])
    );
}

#[test]
fn list_query_all_fields() {
    let mut q = list::RequestParameters::new();
    q.set_sc(120u32);
    q.set_dc(1);
    q.set_nam("google");
    q.set_num("003-180123");
    q.set_tn("g013d");
    q.set_oc("003");
    q.set_ds("20200101");
    q.set_de("20201231");
    q.set_afp(1);
    q.set_bs(1);
    q.set_rec("01");
    q.set_tec("1");
    q.set_sk(3);
    assert_eq!(
        q.query_pairs(),
        pairs_of(&[
            ("SC", "120"),
            ("DC", "1"),
            ("OF", "2"),
            ("NAM", "google"),
            ("NUM", "003-180123"),
            ("TN", "g013d"),
            ("OC", "003"),
            ("DS", "20200101"),
            ("DE", "20201231"),
            ("AFP", "1"),
            ("BS", "1"),
            ("REC", "01"),
            ("TEC", "1"),
            ("SK", "3"),
            ("MC", "1"),
        ])
    );
}

#[test]
fn list_query_empty_name_is_kept() {
    let mut q = list::RequestParameters::new();
    q.set_nam("");
    assert!(q.query_pairs().contains(&("NAM".to_string(), String::new())));
}

#[test]
fn count_query_with_kind() {
    let mut q = num::RequestParameters::new();
    q.set_tec("1");
    assert_eq!(q.query_pairs(), pairs_of(&[("OF", "2"), ("TEC", "1"), ("MC", "1")]));
    let ks = keys(&q.query_pairs());
    for absent in ["SC", "DC", "SK"] {
        assert!(!ks.contains(&absent.to_string()));
    }
}

#[test]
fn count_query_filters() {
    let mut q = num::RequestParameters::new();
    q.set_nam("a");
    q.set_num("b");
    q.set_tn("c");
    q.set_oc("d");
    q.set_ds("20240101");
    q.set_de("20241231");
    q.set_afp(1);
    q.set_bs(1);
    q.set_rec("e");
    assert_eq!(
        q.query_pairs(),
        pairs_of(&[
            ("OF", "2"),
            ("NAM", "a"),
            ("NUM", "b"),
            ("TN", "c"),
            ("OC", "d"),
            ("DS", "20240101"),
            ("DE", "20241231"),
            ("AFP", "1"),
            ("BS", "1"),
            ("REC", "e"),
            ("MC", "1"),
        ])
    );
}

#[test]
fn attachment_number_without_category() {
    let mut q = giteki::file::RequestParameters::new("KEY123");
    q.set_afn(2);
    assert_eq!(q.aft, None);
    assert_eq!(q.afn, Some(2));
    assert_eq!(q.query_pairs(), pairs_of(&[("AFK", "KEY123"), ("AFN", "2")]));
}

#[test]
fn attachment_query_full() {
    let mut q = giteki::file::RequestParameters::new("k");
    assert_eq!(q.query_pairs(), pairs_of(&[("AFK", "k")]));
    q.set_aft(1);
    q.set_afn(3);
    assert_eq!(q.query_pairs(), pairs_of(&[("AFK", "k"), ("AFT", "1"), ("AFN", "3")]));
}

#[test]
fn decimal_text_of_numbers() {
    assert_eq!(decimal_string(0), "0");
    assert_eq!(decimal_string(7), "7");
    assert_eq!(decimal_string(10), "10");
    assert_eq!(decimal_string(4096), "4096");
    assert_eq!(decimal_string(u64::MAX), "18446744073709551615");
}
