use new_home_server::mime_type_mapper::{ExtensionMatcher, MimeTypeMapper, MimeTypeMatcher};

#[test]
fn svg_resolves_to_its_type() {
    let mapper = MimeTypeMapper::default();
    assert_eq!(mapper.match_file("a.svg"), "image/svg+xml");
}

#[test]
fn unknown_extension_falls_back() {
    let mapper = MimeTypeMapper::default();
    assert_eq!(mapper.match_file("a.unknownext"), "application/octet-stream");
    assert_eq!(mapper.match_file(""), "application/octet-stream");
    assert_eq!(mapper.match_file("svg"), "application/octet-stream");
}

#[test]
fn first_matching_rule_wins() {
    let mut mapper: MimeTypeMapper = MimeTypeMapper::new();
    mapper.add_matcher("text/first", ExtensionMatcher::new(".x"));
    mapper.add_matcher("text/second", ExtensionMatcher::new(".x"));
    mapper.add_matcher("text/third", ExtensionMatcher::new("x"));
    assert_eq!(mapper.match_file("file.x"), "text/first");
    assert_eq!(mapper.match_file("filex"), "text/third");
}

#[test]
fn empty_mapper_knows_only_the_fallback() {
    let mapper: MimeTypeMapper = MimeTypeMapper::new();
    assert_eq!(mapper.match_file("index.html"), "application/octet-stream");
}

#[test]
fn default_table_holds_the_common_types() {
    let mapper = MimeTypeMapper::default();
    assert_eq!(mapper.match_file("public/index.html"), "text/html");
    assert_eq!(mapper.match_file("index.htm"), "text/html");
    assert_eq!(mapper.match_file("a.bin"), "application/octet-stream");
    assert_eq!(mapper.match_file("a.bz"), "application/x-bzip");
    assert_eq!(mapper.match_file("a.bz2"), "application/x-bzip2");
    assert_eq!(mapper.match_file("app.js"), "text/javascript");
    assert_eq!(mapper.match_file("data.json"), "application/json");
    assert_eq!(mapper.match_file("song.mid"), "audio/midi audio/x-midi");
    assert_eq!(mapper.match_file("archive.tar.gz"), "application/gzip");
    assert_eq!(mapper.match_file("font.woff"), "font/woff");
    assert_eq!(mapper.match_file("font.woff2"), "font/woff2");
    assert_eq!(mapper.match_file("x/y.png"), "image/png");
    assert_eq!(mapper.match_file("clip.3gp"), "video/3gpp");
    assert_eq!(mapper.match_file("pack.7z"), "application/x-7z-compressed");
    assert_eq!(
        mapper.match_file("report.docx"),
        "application/vnd.openxmlformats-officedocument.wordprocessingml.document"
    );
}

#[test]
fn extension_is_matched_at_the_end_only() {
    let mapper = MimeTypeMapper::default();
    assert_eq!(mapper.match_file("a.svg.unknown"), "application/octet-stream");
    assert_eq!(mapper.match_file("a.SVG"), "application/octet-stream");
    assert_eq!(mapper.match_file(".css"), "text/css");
}

#[test]
fn extension_matcher_checks_the_suffix() {
    let matcher = ExtensionMatcher::new(".png");
    assert!(matcher.match_type(&String::from("x.png")));
    assert!(!matcher.match_type(&String::from("x.png.txt")));
    assert!(!matcher.match_type(&String::from("png")));
    assert!(matcher.match_type(&String::from("ü.png")));
    assert!(ExtensionMatcher::new("").match_type(&String::from("anything")));
}

#[test]
fn added_rule_comes_behind_the_defaults() {
    let mut mapper = MimeTypeMapper::default();
    mapper.add_matcher("text/markdown", ExtensionMatcher::new(".md"));
    mapper.add_matcher("image/other", ExtensionMatcher::new(".svg"));
    assert_eq!(mapper.match_file("readme.md"), "text/markdown");
    assert_eq!(mapper.match_file("a.svg"), "image/svg+xml");
}
