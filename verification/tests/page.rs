use katsite::page::{
    front_matter_text, load_pageinfo, load_siteinfo, FrontMatter, Page, PageNotes, PageSource,
    SiteSettings,
};

fn settings() -> SiteSettings {
    SiteSettings {
        name: "Kat's Site".to_string(),
        url_stub: "https://example.org/".to_string(),
        default_lang: "en_US".to_string(),
        default_og_type: "website".to_string(),
        default_is_nsfw: false,
        default_allow_robots: true,
        sanitizer: false,
        minifier: false,
        brotli: false,
    }
}

fn no_front_matter() -> FrontMatter {
    FrontMatter {
        title: None,
        description: None,
        locale: None,
        is_nsfw: None,
        allow_robots: None,
        og_type: None,
        og_image: None,
        og_audio: None,
        og_video: None,
    }
}

fn source(path: &str, contents: &str) -> PageSource {
    PageSource {
        path: path.to_string(),
        created_time: 10,
        modified_time: 20,
        contents: contents.to_string(),
    }
}

fn titled(title: &str) -> Page {
    let front = FrontMatter { title: Some(title.to_string()), ..no_front_matter() };
    load_pageinfo(&settings(), source("p.md", ""), front).unwrap().0
}

#[test]
fn front_matter_is_the_inside_of_the_leading_comment() {
    assert_eq!(
        front_matter_text("<!--\ntitle = \"T\"\nis_nsfw = true\n-->\n<p>x</p>"),
        "title = \"T\"\nis_nsfw = true"
    );
    assert_eq!(front_matter_text("<!--\r\ntitle = \"T\"\r\n-->\r\n<p>x</p>"), "title = \"T\"");
    assert_eq!(front_matter_text("<!--\n-->\n<p>x</p>"), "");
}

#[test]
fn page_without_a_leading_comment_has_no_front_matter() {
    assert_eq!(front_matter_text("<p>x</p>\n<!--\ntitle = \"T\"\n-->"), "");
    assert_eq!(front_matter_text(" <!--\ntitle = \"T\"\n-->"), "");
    assert_eq!(front_matter_text("<!-"), "");
    assert_eq!(front_matter_text(""), "");
}

#[test]
fn comment_that_is_never_closed_is_front_matter_to_the_end() {
    assert_eq!(front_matter_text("<!--\ntitle = \"T\"\n<p>x</p>"), "title = \"T\"\n<p>x</p>");
    assert_eq!(front_matter_text("<!-- title -->"), "");
}

#[test]
fn file_name_is_given_raw_encoded_and_escaped() {
    let (page, _) =
        load_pageinfo(&settings(), source("docs/my page.md", "<p>x</p>"), no_front_matter())
            .unwrap();
    assert_eq!(page.filename_raw, "my page.html");
    assert_eq!(page.filename_url, "my%20page.html");
    assert_eq!(page.filename, "my&#x25;20page&#x2E;html");
    assert_eq!(page.created_time, 10);
    assert_eq!(page.modified_time, 20);
    assert_eq!(page.data, "<p>x</p>");
}

#[test]
fn title_comes_from_front_matter_then_site_name_then_stem() {
    let own = FrontMatter { title: Some("Mine".to_string()), ..no_front_matter() };
    let (page, _) = load_pageinfo(&settings(), source("index.md", ""), own).unwrap();
    assert_eq!(page.title, "Mine");
    let (page, _) = load_pageinfo(&settings(), source("index.md", ""), no_front_matter()).unwrap();
    assert_eq!(page.title, "Kat&#x27;s&#x20;Site");
    let (page, _) =
        load_pageinfo(&settings(), source("docs/index.md", ""), no_front_matter()).unwrap();
    assert_eq!(page.title, "Kat&#x27;s&#x20;Site");
    let (page, _) =
        load_pageinfo(&settings(), source("docs/about.md", ""), no_front_matter()).unwrap();
    assert_eq!(page.title, "about");
    let (page, _) =
        load_pageinfo(&settings(), source("a/b.c.md", ""), no_front_matter()).unwrap();
    assert_eq!(page.title, "b&#x2E;c");
    assert_eq!(page.filename_raw, "b.c.html");
}

#[test]
fn path_without_a_last_component_names_no_page() {
    assert!(load_pageinfo(&settings(), source("..", ""), no_front_matter()).is_none());
    assert!(load_pageinfo(&settings(), source("/", ""), no_front_matter()).is_none());
    assert!(load_pageinfo(&settings(), source("", ""), no_front_matter()).is_none());
}

#[test]
fn long_titles_and_descriptions_are_noted() {
    let with = |title: String, description: Option<String>| {
        let front = FrontMatter { title: Some(title), description, ..no_front_matter() };
        load_pageinfo(&settings(), source("p.md", ""), front).unwrap().1
    };
    let fine = PageNotes { title_too_long: false, description_too_long: false };
    assert_eq!(with("t".repeat(65), Some("d".repeat(155))), fine);
    assert_eq!(with("\u{e9}".repeat(65), None), fine);
    assert_eq!(
        with("t".repeat(66), None),
        PageNotes { title_too_long: true, description_too_long: false }
    );
    assert_eq!(
        with("t".to_string(), Some("\u{e9}".repeat(156))),
        PageNotes { title_too_long: false, description_too_long: true }
    );
    assert_eq!(
        with("<".repeat(20), Some("<".repeat(60))),
        fine,
        "lengths are taken before escaping"
    );
}

#[test]
fn missing_fields_fall_back_on_the_site_defaults() {
    let (page, _) = load_pageinfo(&settings(), source("p.md", ""), no_front_matter()).unwrap();
    assert_eq!(page.locale, "en&#x5F;US");
    assert_eq!(page.og_type, "website");
    assert!(!page.is_nsfw);
    assert!(page.allow_robots);
    assert_eq!(page.description, None);
    assert_eq!(page.og_image, None);
    assert_eq!(page.og_audio, None);
    assert_eq!(page.og_video, None);
}

#[test]
fn front_matter_overrides_the_site_defaults() {
    let front = FrontMatter {
        title: Some("A & B".to_string()),
        description: Some("\"No\", he said.".to_string()),
        locale: Some("de".to_string()),
        is_nsfw: Some(true),
        allow_robots: Some(false),
        og_type: Some("article".to_string()),
        og_image: Some("img/a b.png".to_string()),
        og_audio: Some("a.ogg".to_string()),
        og_video: Some("\u{1f47e}.webm".to_string()),
    };
    let (page, _) = load_pageinfo(&settings(), source("p.md", ""), front).unwrap();
    assert_eq!(page.title, "A&#x20;&amp;&#x20;B");
    assert_eq!(
        page.description.as_deref(),
        Some("&quot;No&quot;&#x2C;&#x20;he&#x20;said&#x2E;")
    );
    assert_eq!(page.locale, "de");
    assert!(page.is_nsfw);
    assert!(!page.allow_robots);
    assert_eq!(page.og_type, "article");
    assert_eq!(page.og_image.as_deref(), Some("img&#x25;2Fa&#x25;20b&#x2E;png"));
    assert_eq!(page.og_audio.as_deref(), Some("a&#x2E;ogg"));
    assert_eq!(page.og_video.as_deref(), Some("&#x25;F0&#x25;9F&#x25;91&#x25;BE&#x2E;webm"));
}

#[test]
fn escaping_covers_latin_one_and_leaves_the_rest() {
    assert_eq!(titled("caf\u{e9}").title, "caf&#xE9;");
    assert_eq!(titled("\u{7f}\u{80}\u{ff}\u{100}").title, "&#x7F;&#x80;&#xFF;\u{100}");
    assert_eq!(titled("<a href='x'>").title, "&lt;a&#x20;href&#x3D;&#x27;x&#x27;&gt;");
    assert_eq!(titled("azAZ09").title, "azAZ09");
    assert_eq!(titled("\u{4e16}\u{754c}").title, "\u{4e16}\u{754c}");
    assert_eq!(titled("\n\t").title, "&#x0A;&#x09;");
}

#[test]
fn contents_are_cleaned_only_when_the_sanitizer_is_on() {
    let dirty = "XSS<script>attack</script>";
    let (page, _) = load_pageinfo(&settings(), source("p.md", dirty), no_front_matter()).unwrap();
    assert_eq!(page.data, dirty);
    let clean = SiteSettings { sanitizer: true, ..settings() };
    let (page, _) = load_pageinfo(&clean, source("p.md", dirty), no_front_matter()).unwrap();
    assert_eq!(page.data, "XSS");
}

#[test]
fn site_lists_its_pages_by_title() {
    let pages = vec![titled("b"), titled("a"), titled("C"), titled("ab"), titled("")];
    let site = load_siteinfo(&settings(), pages);
    let titles: Vec<&str> = site.pages.iter().map(|page| page.title.as_str()).collect();
    assert_eq!(titles, vec!["", "C", "a", "ab", "b"]);
    assert_eq!(site.name, "Kat&#x27;s&#x20;Site");
    assert_eq!(site.url_stub, "https://example.org/");
    assert!(load_siteinfo(&settings(), Vec::new()).pages.is_empty());
}

#[test]
fn every_character_below_u0100_is_escaped_by_rule() {
    for code in 0u32..=0x17f {
        let c = char::from_u32(code).unwrap();
        let expected = match c {
            '"' => "&quot;".to_string(),
            '&' => "&amp;".to_string(),
            '\'' => "&#x27;".to_string(),
            '<' => "&lt;".to_string(),
            '>' => "&gt;".to_string(),
            _ if c.is_ascii_alphanumeric() || code >= 0x100 => c.to_string(),
            _ => format!("&#x{:02X};", code),
        };
        assert_eq!(titled(&c.to_string()).title, expected, "U+{:04X}", code);
    }
}

#[test]
fn every_byte_is_encoded_by_rule() {
    for code in 0u32..=0x7ff {
        let c = char::from_u32(code).unwrap();
        let name = format!("a{}b.md", c);
        if c == '/' || c == '\0' {
            continue;
        }
        let mut expected = String::new();
        for byte in format!("a{}b.html", c).bytes() {
            if byte.is_ascii_alphanumeric() || b"-._~".contains(&byte) {
                expected.push(byte as char);
            } else {
                expected.push_str(&format!("%{:02X}", byte));
            }
        }
        let (page, _) = load_pageinfo(&settings(), source(&name, ""), no_front_matter()).unwrap();
        assert_eq!(page.filename_url, expected, "U+{:04X}", code);
    }
}
