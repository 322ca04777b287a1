use og_outline::listing::{cache_is_fresh, filter_titles, folded_title_matches, title_matches, CACHE_TIMEOUT};
use og_outline::metadata::{generate_meta_tags, Metadata};
use og_outline::object_id::{object_id_from_hex, IdError};
use og_outline::parser::{parse_outline_for, ParseError};
use og_outline::upload::{decode_image, ipfs_gateway_url, UploadError};

#[test]
fn meta_tags_carry_every_field() {
    let m = Metadata {
        title: "Open SASS".to_string(),
        description: "Rusty SaaS".to_string(),
        site_name: "opensass.org".to_string(),
        image_url: "https://opensass.org/logo.webp".to_string(),
        brand_url: "https://opensass.org".to_string(),
        author: "Mahmoud".to_string(),
        locale: "en_US".to_string(),
        twitter_card: "summary_large_image".to_string(),
        twitter_site: "@opensassorg".to_string(),
    };
    let expected = "<title>Open SASS</title>
<meta name=\"description\" content=\"Rusty SaaS\" />
<meta property=\"og:title\" content=\"Open SASS\" />
<meta property=\"og:description\" content=\"Rusty SaaS\" />
<meta property=\"og:site_name\" content=\"opensass.org\" />
<meta property=\"og:image\" content=\"https://opensass.org/logo.webp\" />
<meta property=\"og:author\" content=\"Mahmoud\" />
<meta property=\"og:locale\" content=\"en_US\" />
<meta name=\"twitter:card\" content=\"summary_large_image\" />
<meta name=\"twitter:site\" content=\"@opensassorg\" />";
    assert_eq!(generate_meta_tags(m), expected);
}

#[test]
fn meta_tags_of_empty_metadata() {
    let out = generate_meta_tags(Metadata::default());
    assert!(out.starts_with("<title></title>\n<meta name=\"description\" content=\"\" />"));
    assert!(out.ends_with("<meta name=\"twitter:site\" content=\"\" />"));
    assert_eq!(out.lines().count(), 10);
}

#[test]
fn cache_freshness_bounds() {
    assert_eq!(CACHE_TIMEOUT, 7200);
    assert!(cache_is_fresh(10_000, 10_000));
    assert!(cache_is_fresh(10_000, 10_000 - 7199));
    assert!(!cache_is_fresh(10_000, 10_000 - 7200));
    assert!(cache_is_fresh(10_000, 20_000));
    assert!(!cache_is_fresh(i64::MAX, i64::MIN));
    assert!(cache_is_fresh(i64::MIN, i64::MAX));
}

#[test]
fn search_ignores_case() {
    let titles = vec![
        "Learning RUST".to_string(),
        "Go basics".to_string(),
        "rusty nails".to_string(),
    ];
    assert_eq!(filter_titles("Rust", &titles), vec![0, 2]);
    assert_eq!(filter_titles("", &titles), vec![0, 1, 2]);
    assert_eq!(filter_titles("python", &titles), Vec::<usize>::new());
    assert!(title_matches("BASICS", "Go basics"));
    assert!(!title_matches("basicz", "Go basics"));
}

#[test]
fn folded_search_matches_substrings() {
    assert!(folded_title_matches("ab", "xaby"));
    assert!(folded_title_matches("", ""));
    assert!(!folded_title_matches("abc", "ab"));
    assert!(!folded_title_matches("Ab", "xaby"));
}

#[test]
fn object_id_reads_hex_in_either_case() {
    let b = object_id_from_hex("64b7f0c2e4b0a1a2b3c4d5e6").unwrap();
    assert_eq!(b, [0x64, 0xb7, 0xf0, 0xc2, 0xe4, 0xb0, 0xa1, 0xa2, 0xb3, 0xc4, 0xd5, 0xe6]);
    assert_eq!(object_id_from_hex("64B7F0C2E4B0A1A2B3C4D5E6").unwrap(), b);
}

#[test]
fn object_id_refuses_other_text() {
    assert_eq!(object_id_from_hex("64b7f0c2e4b0a1a2b3c4d5e"), Err(IdError::InvalidObjectId));
    assert_eq!(object_id_from_hex("64b7f0c2e4b0a1a2b3c4d5e6aa"), Err(IdError::InvalidObjectId));
    assert_eq!(object_id_from_hex("zzb7f0c2e4b0a1a2b3c4d5e6"), Err(IdError::InvalidObjectId));
    assert_eq!(object_id_from_hex(""), Err(IdError::InvalidObjectId));
}

#[test]
fn outline_for_object_id_parent() {
    let text = "### Day 1: A\n#### Place 1: B\n**Estimated Duration:** 5 minutes\n* c\n";
    let details = parse_outline_for(text, "64b7f0c2e4b0a1a2b3c4d5e6", "en").unwrap();
    assert_eq!(details.len(), 1);
    assert_eq!(details[0].parent_id, "64b7f0c2e4b0a1a2b3c4d5e6");
    assert_eq!(details[0].content, "Place 1: B\n* c");
    assert_eq!(details[0].estimated_duration, 5);
}

#[test]
fn outline_for_bad_parent_is_refused() {
    let text = "### Day 1: A\n#### Place 1: B\n";
    assert_eq!(parse_outline_for(text, "trip-1", "en").unwrap_err(), ParseError::InvalidParentId);
}

#[test]
fn image_data_is_decoded() {
    assert_eq!(decode_image("aGVsbG8=").unwrap(), b"hello".to_vec());
    assert_eq!(decode_image("").unwrap(), Vec::<u8>::new());
}

#[test]
fn image_data_that_is_not_base64_is_refused() {
    assert_eq!(decode_image("not base64!"), Err(UploadError::InvalidBase64));
    assert_eq!(decode_image("aGVsbG8"), Err(UploadError::InvalidBase64));
}

#[test]
fn gateway_url_appends_the_hash() {
    assert_eq!(
        ipfs_gateway_url("QmYwAPJzv5CZsnA625s3Xf2nemtYgPpHdWEz79ojWnPbdG"),
        "https://gateway.pinata.cloud/ipfs/QmYwAPJzv5CZsnA625s3Xf2nemtYgPpHdWEz79ojWnPbdG"
    );
}
