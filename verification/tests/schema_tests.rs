use seo_meta::get_article_schema;
use seo_meta::get_person_schema;

#[test]
fn person_schema_is_valid_json() {
    let schema = get_person_schema();
    let value: serde_json::Value = serde_json::from_str(&schema).unwrap();
    assert_eq!(value["@type"].as_str().unwrap(), "Person");
    assert_eq!(value["name"].as_str().unwrap(), "Edgar Manuel Janota");
    assert_eq!(value["url"].as_str().unwrap(), "https://ndulo.pages.dev");
    assert_eq!(value["worksFor"]["name"].as_str().unwrap(), "MODRESS");
    assert_eq!(value["knowsAbout"].as_array().unwrap().len(), 11);
}

#[test]
fn article_schema_round_trips_fields() {
    let title = "Case Study: MODRESS - Marketplace Angolano | Edgar Janota";
    let description =
        "Como construímos o MODRESS, marketplace de moda que venceu a competição BNA. Stack técnica, desafios e soluções de arquitetura.";
    let schema = get_article_schema("modress-case-study", title, description);
    let value: serde_json::Value = serde_json::from_str(&schema).unwrap();
    assert_eq!(value["@type"].as_str().unwrap(), "TechArticle");
    assert_eq!(value["headline"].as_str().unwrap(), title);
    assert_eq!(value["description"].as_str().unwrap(), description);
    assert_eq!(
        value["url"].as_str().unwrap(),
        "https://ndulo.pages.dev/blog/modress-case-study"
    );
    assert_eq!(
        value["image"].as_str().unwrap(),
        "https://ndulo.pages.dev/og-blog-modress-case-study.jpg"
    );
    assert_eq!(value["author"]["name"].as_str().unwrap(), "Edgar Manuel Janota");
}

#[test]
fn article_schema_embeds_plain_fields_verbatim() {
    let title = "A plain title";
    let schema = get_article_schema("an-id", title, "a plain description");
    assert!(schema.contains(title));
    assert!(schema.contains("a plain description"));
    assert!(schema.contains("https://ndulo.pages.dev/blog/an-id"));
}

#[test]
fn article_schema_escapes_special_characters() {
    let title = "He said \"hi\" \\ bye";
    let description = "line one\nline two\ttabbed";
    let schema = get_article_schema("x", title, description);
    let value: serde_json::Value = serde_json::from_str(&schema).unwrap();
    assert_eq!(value["headline"].as_str().unwrap(), title);
    assert_eq!(value["description"].as_str().unwrap(), description);
}

#[test]
fn article_schema_escapes_control_characters() {
    let title = "bell\u{7} and unit sep\u{1f} and backspace\u{8}";
    let schema = get_article_schema("x", title, "d");
    assert!(schema.contains("\\u0007"));
    assert!(schema.contains("\\u001f"));
    assert!(schema.contains("\\b"));
    let value: serde_json::Value = serde_json::from_str(&schema).unwrap();
    assert_eq!(value["headline"].as_str().unwrap(), title);
}
