use profile_extract::extract::extract;
use profile_extract::extract::extract_from_parts;
use profile_extract::extract::extract_meta_content;
use profile_extract::model::ExtractionError;
use profile_extract::model::MetaTag;
use profile_extract::model::Record;
use profile_extract::url::profile_url;

const MINIMAL: &str = "<html><head>\
    <meta property=\"og:title\" content=\"Jane Doe\">\
    <meta property=\"og:description\" content=\"Researcher\">\
    <meta name=\"faculty_metatag\" content=\"Engineering\">\
    <meta name=\"school_metatag\" content=\"ECS\">\
    </head><body><h1>Dr. Jane Doe</h1></body></html>";

fn meta(property: Option<&str>, name: Option<&str>, content: Option<&str>) -> MetaTag {
    MetaTag {
        property: property.map(|s| s.to_owned()),
        name: name.map(|s| s.to_owned()),
        content: content.map(|s| s.to_owned()),
    }
}

fn missing(r: Result<Record, ExtractionError>) -> String {
    match r {
        Ok(_) => panic!("extraction succeeded unexpectedly"),
        Err(e) => e.missing_identifier().clone(),
    }
}

#[test]
fn url_appends_identifier_as_supplied() {
    assert_eq!(
        profile_url("jd1a20\n"),
        "https://www.ecs.soton.ac.uk/people/jd1a20\n"
    );
}

#[test]
fn end_to_end_minimal_document() {
    let record = extract(MINIMAL).unwrap();
    assert_eq!(record.name, "Jane Doe");
    assert_eq!(record.title, "Dr. Jane Doe");
    assert_eq!(record.description, "Researcher");
    assert_eq!(record.faculty, "Engineering");
    assert_eq!(record.school, "ECS");
}

#[test]
fn end_to_end_missing_faculty() {
    let html = MINIMAL.replace("<meta name=\"faculty_metatag\" content=\"Engineering\">", "");
    assert_eq!(missing(extract(&html)), "faculty_metatag");
}

#[test]
fn title_defaults_to_empty_without_h1() {
    let html = MINIMAL.replace("<h1>Dr. Jane Doe</h1>", "");
    let record = extract(&html).unwrap();
    assert_eq!(record.title, "");
    assert_eq!(record.name, "Jane Doe");
}

#[test]
fn title_uses_first_h1_in_document_order() {
    let html = MINIMAL.replace(
        "<h1>Dr. Jane Doe</h1>",
        "<h1>First Heading</h1><h1>Second Heading</h1>",
    );
    let record = extract(&html).unwrap();
    assert_eq!(record.title, "First Heading");
}

#[test]
fn first_missing_identifier_in_checking_order_wins() {
    let html = "<html><head>\
        <meta property=\"og:description\" content=\"Researcher\">\
        </head><body></body></html>";
    assert_eq!(missing(extract(html)), "og:title");

    let html = "<html><head>\
        <meta property=\"og:title\" content=\"Jane Doe\">\
        <meta name=\"school_metatag\" content=\"ECS\">\
        </head><body></body></html>";
    assert_eq!(missing(extract(html)), "og:description");
}

#[test]
fn extraction_is_pure() {
    let first = extract(MINIMAL).unwrap();
    let second = extract(MINIMAL).unwrap();
    assert_eq!(first, second);
}

#[test]
fn name_spelling_equals_property_spelling() {
    let with_property = extract(MINIMAL).unwrap();
    let with_name = extract(
        &MINIMAL
            .replace("property=\"og:title\"", "name=\"og:title\"")
            .replace("property=\"og:description\"", "name=\"og:description\""),
    )
    .unwrap();
    assert_eq!(with_property, with_name);
}

#[test]
fn first_matching_meta_wins() {
    let html = MINIMAL.replace(
        "<meta property=\"og:title\" content=\"Jane Doe\">",
        "<meta property=\"og:title\" content=\"Jane Doe\">\
         <meta property=\"og:title\" content=\"Impostor\">",
    );
    let record = extract(&html).unwrap();
    assert_eq!(record.name, "Jane Doe");
}

#[test]
fn first_match_without_content_fails() {
    let html = MINIMAL.replace(
        "<meta property=\"og:title\" content=\"Jane Doe\">",
        "<meta property=\"og:title\">\
         <meta property=\"og:title\" content=\"Jane Doe\">",
    );
    assert_eq!(missing(extract(&html)), "og:title");
}

#[test]
fn lookup_selects_first_match_over_the_model() {
    let metas = vec![
        meta(None, Some("other"), Some("ignored")),
        meta(Some("og:title"), None, Some("first")),
        meta(None, Some("og:title"), Some("second")),
    ];
    assert_eq!(extract_meta_content(&metas, "og:title").unwrap(), "first");
}

#[test]
fn lookup_fails_without_match_over_the_model() {
    let metas = vec![meta(Some("og:description"), None, Some("text"))];
    let err = extract_meta_content(&metas, "og:title").unwrap_err();
    assert_eq!(err.missing_identifier(), "og:title");
}

#[test]
fn record_assembled_from_parts() {
    let metas = vec![
        meta(Some("og:title"), None, Some("Jane Doe")),
        meta(Some("og:description"), None, Some("Researcher")),
        meta(None, Some("faculty_metatag"), Some("Engineering")),
        meta(None, Some("school_metatag"), Some("ECS")),
    ];
    let record = extract_from_parts(&metas, &Some("Dr. Jane Doe".to_owned())).unwrap();
    assert_eq!(
        record,
        Record {
            name: "Jane Doe".to_owned(),
            title: "Dr. Jane Doe".to_owned(),
            description: "Researcher".to_owned(),
            faculty: "Engineering".to_owned(),
            school: "ECS".to_owned(),
        }
    );
}
