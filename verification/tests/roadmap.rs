use capi_wasm::js::add_roadmap_item::{bytes_debug_string, hash_str_option_to_hash_option, HashDigest};
use capi_wasm::js::load_roadmap::{
    group_by_time_range, roadmap_items_js, sort_by_date, to_flat_roadmap_items, to_js_item,
    to_quarter, year_quarter_lt_exec, Quarter, RoadmapItemView, SavedRoadmapItem, YearQuarter,
};

const JAN_15_2022: i64 = 1642204800;
const FEB_1_2022: i64 = 1643673600;
const MAR_31_2022: i64 = 1648684800;
const APR_10_2022: i64 = 1649548800;
const DEC_31_2021: i64 = 1640908800;

fn item(tx: &str, date: i64, title: &str) -> SavedRoadmapItem {
    SavedRoadmapItem::new(tx.to_owned(), date, title.to_owned()).unwrap()
}

#[test]
fn months_map_to_quarters() {
    assert_eq!(to_quarter(1), Ok(Quarter::Q1));
    assert_eq!(to_quarter(3), Ok(Quarter::Q1));
    assert_eq!(to_quarter(4), Ok(Quarter::Q2));
    assert_eq!(to_quarter(9), Ok(Quarter::Q3));
    assert_eq!(to_quarter(12), Ok(Quarter::Q4));
    assert_eq!(to_quarter(0), Err("Invalid month number: 0".to_owned()));
    assert_eq!(to_quarter(13), Err("Invalid month number: 13".to_owned()));
}

#[test]
fn quarters_have_names_and_an_order() {
    assert_eq!(Quarter::Q3.to_string(), "Q3");
    assert_eq!(YearQuarter { year: 2022, quarter: Quarter::Q1 }.to_string(), "Q1 2022");
    let a = YearQuarter { year: 2021, quarter: Quarter::Q4 };
    let b = YearQuarter { year: 2022, quarter: Quarter::Q1 };
    assert!(year_quarter_lt_exec(&a, &b));
    assert!(!year_quarter_lt_exec(&b, &a));
    assert!(!year_quarter_lt_exec(&a, &a));
}

#[test]
fn items_know_their_date() {
    let i = item("T1", FEB_1_2022, "Launch");
    assert_eq!(i.tx_id(), "T1");
    assert_eq!(i.date(), FEB_1_2022);
    assert_eq!(i.title(), "Launch");
    assert_eq!(i.year_month(), (2022, 2));
    assert!(SavedRoadmapItem::new("x".to_owned(), i64::MAX, "t".to_owned()).is_none());
}

#[test]
fn sorting_is_by_date_and_stable() {
    let items = vec![
        item("c", APR_10_2022, "c"),
        item("a1", JAN_15_2022, "a1"),
        item("b", FEB_1_2022, "b"),
        item("a2", JAN_15_2022, "a2"),
    ];
    let sorted = sort_by_date(items);
    let ids: Vec<&str> = sorted.iter().map(|i| i.tx_id().as_str()).collect();
    assert_eq!(ids, vec!["a1", "a2", "b", "c"]);
}

#[test]
fn groups_items_by_quarter_in_order() {
    let items = vec![
        item("d", DEC_31_2021, "d"),
        item("a", JAN_15_2022, "a"),
        item("m", MAR_31_2022, "m"),
        item("p", APR_10_2022, "p"),
    ];
    let groups = group_by_time_range(items).unwrap();
    assert_eq!(groups.len(), 3);
    assert_eq!(groups[0].year_quarter, YearQuarter { year: 2021, quarter: Quarter::Q4 });
    assert_eq!(groups[1].year_quarter, YearQuarter { year: 2022, quarter: Quarter::Q1 });
    assert_eq!(groups[2].year_quarter, YearQuarter { year: 2022, quarter: Quarter::Q2 });
    assert_eq!(groups[1].items.len(), 2);
    let flat = to_flat_roadmap_items(groups);
    // every item once and one header per quarter
    assert_eq!(flat.len(), 4 + 3);
    assert!(matches!(flat[0], RoadmapItemView::Item(_)));
    assert!(matches!(flat[1], RoadmapItemView::Header(_)));
    assert!(matches!(flat[2], RoadmapItemView::Item(_)));
    assert!(matches!(flat[3], RoadmapItemView::Item(_)));
    assert!(matches!(flat[4], RoadmapItemView::Header(_)));
    assert!(matches!(flat[6], RoadmapItemView::Header(_)));
}

#[test]
fn lines_in_the_frontend_form() {
    let header = to_js_item(RoadmapItemView::Header(YearQuarter { year: 2022, quarter: Quarter::Q2 }));
    assert_eq!(header.item_type, "header");
    assert_eq!(header.text, "Q2 2022");
    assert_eq!(header.tx_id, None);
    assert_eq!(header.tx_link, None);
    assert_eq!(header.date, None);
    let line = to_js_item(RoadmapItemView::Item(item("TXID", JAN_15_2022, "Title")));
    assert_eq!(line.item_type, "item");
    assert_eq!(line.tx_id, Some("TXID".to_owned()));
    assert_eq!(line.tx_link, Some("https://testnet.algoexplorer.io/tx/TXID".to_owned()));
    assert_eq!(line.date, Some(JAN_15_2022.to_string()));
    assert_eq!(line.text, "Title");
}

#[test]
fn roadmap_lines_sorted_grouped_and_with_headers_after_items() {
    let items = vec![
        item("p", APR_10_2022, "April"),
        item("a", JAN_15_2022, "January"),
        item("b", FEB_1_2022, "February"),
    ];
    let js = roadmap_items_js(items).unwrap();
    let texts: Vec<&str> = js.iter().map(|l| l.text.as_str()).collect();
    assert_eq!(texts, vec!["January", "February", "Q1 2022", "April", "Q2 2022"]);
    let types: Vec<&str> = js.iter().map(|l| l.item_type.as_str()).collect();
    assert_eq!(types, vec!["item", "item", "header", "item", "header"]);
    assert!(roadmap_items_js(vec![]).unwrap().is_empty());
}

#[test]
fn parent_hash_is_decoded_from_base64() {
    assert_eq!(hash_str_option_to_hash_option(None), Ok(None));
    let text = "AAECAwQFBgcICQoLDA0ODxAREhMUFRYXGBkaGxwdHh8=".to_owned();
    let mut expected = [0u8; 32];
    for (i, b) in expected.iter_mut().enumerate() {
        *b = i as u8;
    }
    assert_eq!(hash_str_option_to_hash_option(Some(text)), Ok(Some(HashDigest(expected))));
}

#[test]
fn parent_hash_errors() {
    assert_eq!(
        hash_str_option_to_hash_option(Some("AQID".to_owned())),
        Err("Couldn't convert bytes(len: 3): [1, 2, 3] into hash. e: [1, 2, 3]".to_owned())
    );
    let bad = "not base64!".to_owned();
    let expected = data_encoding::BASE64.decode(bad.as_bytes()).unwrap_err().to_string();
    assert_eq!(hash_str_option_to_hash_option(Some(bad)), Err(expected));
}

#[test]
fn bytes_are_listed_as_debug_does() {
    assert_eq!(bytes_debug_string(&vec![]), format!("{:?}", Vec::<u8>::new()));
    assert_eq!(bytes_debug_string(&vec![1, 20, 255]), format!("{:?}", vec![1u8, 20, 255]));
}
