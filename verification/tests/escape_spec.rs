use fun_html::{elt, Attribute, Element};

fn text_entity(c: char) -> String {
    match c {
        '&' => "&amp;".to_string(),
        '<' => "&lt;".to_string(),
        '>' => "&gt;".to_string(),
        c => c.to_string(),
    }
}

fn attribute_entity(c: char) -> String {
    match c {
        '"' => "&quot;".to_string(),
        c => text_entity(c),
    }
}

fn ends_tag_name(c: char) -> bool {
    c == '/' || c == '>' || ('\u{9}'..='\u{d}').contains(&c) || ('\u{1c}'..='\u{20}').contains(&c)
}

fn closes_script_at(s: &[char], i: usize) -> bool {
    i + 8 < s.len()
        && s[i] == '<'
        && s[i + 1] == '/'
        && (s[i + 2] == 's' || s[i + 2] == 'S')
        && (s[i + 3] == 'c' || s[i + 3] == 'C')
        && (s[i + 4] == 'r' || s[i + 4] == 'R')
        && (s[i + 5] == 'i' || s[i + 5] == 'I')
        && (s[i + 6] == 'p' || s[i + 6] == 'P')
        && (s[i + 7] == 't' || s[i + 7] == 'T')
        && ends_tag_name(s[i + 8])
}

fn opens_comment_at(s: &[char], i: usize) -> bool {
    i + 3 < s.len() && s[i] == '<' && s[i + 1] == '!' && s[i + 2] == '-' && s[i + 3] == '-'
}

fn escaped_script(source: &str) -> String {
    let s: Vec<char> = source.chars().collect();
    let mut out = String::new();
    for i in 0..s.len() {
        out.push(s[i]);
        if closes_script_at(&s, i) || opens_comment_at(&s, i) {
            out.push('\\');
        }
    }
    out
}

fn unescape(s: &str) -> String {
    let mut out = String::new();
    let mut rest = s;
    while !rest.is_empty() {
        let mut found = false;
        for (entity, c) in [("&amp;", '&'), ("&lt;", '<'), ("&gt;", '>'), ("&quot;", '"')] {
            if let Some(tail) = rest.strip_prefix(entity) {
                out.push(c);
                rest = tail;
                found = true;
                break;
            }
        }
        if !found {
            let c = rest.chars().next().unwrap();
            out.push(c);
            rest = &rest[c.len_utf8()..];
        }
    }
    out
}

fn render_text(text: &str) -> String {
    Element::from(text.to_string()).to_string()
}

fn render_attribute_value(value: &str) -> String {
    let rendered = Attribute::new("v", value.to_string().into()).to_string();
    let inner = rendered.strip_prefix("v=\"").unwrap().strip_suffix('"').unwrap();
    inner.to_string()
}

fn render_script(source: &str) -> String {
    let leaked: &'static str = Box::leak(source.to_string().into_boxed_str());
    let rendered = elt::script(vec![], leaked).to_string();
    let inner = rendered
        .strip_prefix("<script>")
        .unwrap()
        .strip_suffix("</script>")
        .unwrap();
    inner.to_string()
}

/// Every string of up to `length` characters of `alphabet`.
fn strings(alphabet: &[char], length: usize) -> Vec<String> {
    let mut all = vec![String::new()];
    let mut last = vec![String::new()];
    for _ in 0..length {
        let mut next = Vec::new();
        for s in &last {
            for c in alphabet {
                let mut t = s.clone();
                t.push(*c);
                next.push(t);
            }
        }
        all.extend(next.iter().cloned());
        last = next;
    }
    all
}

struct Dice(u64);

impl Dice {
    fn roll(&mut self, sides: usize) -> usize {
        self.0 = self
            .0
            .wrapping_mul(6364136223846793005)
            .wrapping_add(1442695040888963407);
        ((self.0 >> 33) as usize) % sides
    }
}

#[test]
fn text_escapes_the_three_characters() {
    assert_eq!(render_text("a > b && a < c"), "a &gt; b &amp;&amp; a &lt; c");
    assert_eq!(render_text("\"quoted\" 'single'"), "\"quoted\" 'single'");
    assert_eq!(render_text(""), "");
    assert_eq!(render_text("&amp;"), "&amp;amp;");
    assert_eq!(render_text("é<ü>€&𝄞"), "é&lt;ü&gt;€&amp;𝄞");
}

#[test]
fn attribute_values_escape_the_four_characters() {
    assert_eq!(
        render_attribute_value("The default value is \"Hello world!\"."),
        "The default value is &quot;Hello world!&quot;."
    );
    assert_eq!(render_attribute_value("<a href='x'>&"), "&lt;a href='x'&gt;&amp;");
    assert_eq!(render_attribute_value(""), "");
    assert_eq!(render_attribute_value("\"><script>"), "&quot;&gt;&lt;script&gt;");
}

#[test]
fn scripts_escape_closing_tags_and_comments() {
    assert_eq!(render_script("alert('</script>');"), "alert('<\\/script>');");
    assert_eq!(render_script("</SCRIPT>"), "<\\/SCRIPT>");
    assert_eq!(render_script("</ScRiPt x>"), "<\\/ScRiPt x>");
    assert_eq!(render_script("</script/>"), "<\\/script/>");
    assert_eq!(render_script("</script\n>"), "<\\/script\n>");
    assert_eq!(render_script("</script"), "</script");
    assert_eq!(render_script("</scriptx>"), "</scriptx>");
    assert_eq!(render_script("</scrip>"), "</scrip>");
    assert_eq!(render_script("<!-- x -->"), "<\\!-- x -->");
    assert_eq!(render_script("<!- x"), "<!- x");
    assert_eq!(render_script("<</script>"), "<<\\/script>");
    assert_eq!(render_script("</scri</script>"), "</scri<\\/script>");
    assert_eq!(render_script("a < b && c > d"), "a < b && c > d");
    assert_eq!(render_script("<\\/script>"), "<\\/script>");
    assert_eq!(render_script(""), "");
}

#[test]
fn text_is_escaped_character_by_character() {
    let alphabet = ['&', '<', '>', '"', '\'', 'a', ';', 'é'];
    for s in strings(&alphabet, 4) {
        let expected: String = s.chars().map(text_entity).collect();
        let rendered = render_text(&s);
        assert_eq!(rendered, expected, "{s:?}");
        assert!(!rendered.contains('<') && !rendered.contains('>'), "{s:?}");
        assert_eq!(unescape(&rendered), s);
    }
}

#[test]
fn attribute_values_are_escaped_character_by_character() {
    let alphabet = ['&', '<', '>', '"', '\'', 'q', ';', 'ü'];
    for s in strings(&alphabet, 4) {
        let expected: String = s.chars().map(attribute_entity).collect();
        let rendered = render_attribute_value(&s);
        assert_eq!(rendered, expected, "{s:?}");
        assert!(
            !rendered.contains('<') && !rendered.contains('>') && !rendered.contains('"'),
            "{s:?}"
        );
        assert_eq!(unescape(&rendered), s);
    }
}

#[test]
fn entities_in_the_source_are_read_back_as_they_were() {
    for s in ["&lt;", "&amp;lt;", "&quot;&", "&&&", "&gt", "a&amp;b<c>\"d\""] {
        assert_eq!(unescape(&render_text(s)), s);
        assert_eq!(unescape(&render_attribute_value(s)), s);
    }
}

#[test]
fn short_scripts_are_escaped_as_stated() {
    let alphabet = ['<', '/', '!', '-', 's', '>', ' ', '\\'];
    for s in strings(&alphabet, 5) {
        assert_eq!(render_script(&s), escaped_script(&s), "{s:?}");
    }
}

#[test]
fn scripts_near_a_closing_tag_are_escaped_as_stated() {
    let alphabet = [
        '<', '/', '!', '-', 's', 'S', 'c', 'C', 'r', 'R', 'i', 'I', 'p', 'P', 't', 'T', '>', ' ',
        '\t', '\n', '\u{b}', '\u{c}', '\r', '\u{1b}', '\u{1c}', '\u{1f}', '\u{21}', '\u{8}',
        '\u{e}', '\\', 'x', 'é', '\u{a0}', '\u{85}', '\'', '"', '=', ';',
    ];
    let template: Vec<char> = "</script>".chars().collect();
    for at in 0..template.len() {
        for c in alphabet {
            let mut changed = template.clone();
            changed[at] = c;
            let s: String = changed.iter().collect();
            for (before, after) in [("", ""), ("<", ">"), ("a", "</script>"), ("</", "x"), ("<!--", "-->")] {
                let whole = format!("{before}{s}{after}");
                assert_eq!(render_script(&whole), escaped_script(&whole), "{whole:?}");
            }
            let mut inserted = template.clone();
            inserted.insert(at, c);
            let s: String = inserted.iter().collect();
            assert_eq!(render_script(&s), escaped_script(&s), "{s:?}");
        }
    }
}

#[test]
fn scripts_made_of_fragments_are_escaped_as_stated() {
    let pieces = [
        "<", "/", "</", "</script", "</SCRIPT", "</ScRiPt", "</scrip", "script", ">", " ", "\t",
        "\n", "\u{1c}", "\u{b}", "<!--", "<!-", "!", "-", "--", "s", "t", "x", "\\", "é", "'", "\"",
        "</script>", "<!---->", "&", "<s", "T>",
    ];
    let mut dice = Dice(2024);
    for _ in 0..40_000 {
        let mut s = String::new();
        for _ in 0..1 + dice.roll(7) {
            s.push_str(pieces[dice.roll(pieces.len())]);
        }
        let rendered = render_script(&s);
        assert_eq!(rendered, escaped_script(&s), "{s:?}");
        let chars: Vec<char> = rendered.chars().collect();
        for i in 0..chars.len() {
            assert!(!closes_script_at(&chars, i), "{s:?}");
            assert!(!opens_comment_at(&chars, i), "{s:?}");
        }
    }
}

#[test]
fn raw_markup_is_not_escaped() {
    assert_eq!(elt::raw("<b>&</b>").to_string(), "<b>&</b>");
    assert_eq!(
        elt::raw_unsafe("</script><!--\"".to_string()).to_string(),
        "</script><!--\""
    );
}
