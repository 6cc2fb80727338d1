//! Tests of the affiliated-keyword matcher and collector.

use orgparse::affiliated::{aff_match_at, AffKeyKind, AttrEntry, DualVal};
use orgparse::cursor::Cursor;
use orgparse::data::StringOrObject;
use orgparse::environment::DefaultEnvironment;
use orgparse::parser::{ParseGranularity, Parser};

#[test]
fn test_re() {
    // The affiliated keyword grammar, exercised through its matcher.
    assert!(aff_match_at(b"#+CAPTION: x", 0).is_some());
    assert!(aff_match_at(b"#+RESULTS[id]: x", 0).is_some());
    assert!(aff_match_at(b"#+HEADER: :var x=1", 0).is_some());
    assert!(aff_match_at(b"#+PLOT: set", 0).is_some());
    assert!(aff_match_at(b"#+NAME: tbl", 0).is_some());
    assert!(aff_match_at(b"#+ATTR_HTML: :width 40", 0).is_some());
    assert!(aff_match_at(b"#+UNKNOWN: x", 0).is_none());
    assert!(aff_match_at(b"#+CAPTION x", 0).is_none());
    assert!(aff_match_at(b"plain text", 0).is_none());
}

#[test]
fn affiliated_re() {
    let not_bol = br"  \n#+caPtion[GIT]: org-rs";
    assert!(aff_match_at(not_bol, 0).is_none());

    let caption = b"   #+caPtion[GIT]: org-rs";
    let m = aff_match_at(caption, 0).unwrap();
    assert_eq!(AffKeyKind::Caption, m.key);
    let sec = m.secondary.unwrap();
    assert_eq!(b"GIT", &caption[sec.0..sec.1]);

    let dual_part = b"#+CAPTION: Orgmode";
    let m = aff_match_at(dual_part, 0).unwrap();
    assert_eq!(AffKeyKind::Caption, m.key);
    assert!(m.secondary.is_none());

    let single = b"#+RESNAME: someresult";
    let m = aff_match_at(single, 0).unwrap();
    assert_eq!(AffKeyKind::Name, m.key);

    let attr = b"#+attr_html: :file filename.ext";
    let m = aff_match_at(attr, 0).unwrap();
    assert_eq!(AffKeyKind::Attr, m.key);
    assert_eq!(b"attr_html", &attr[m.backend.0..m.backend.1]);
}

#[test]
fn looking_at_affiliated_re() {
    let caption_txt = " \n #+caPtion[GIT]: org-rs";
    let mut cursor = Cursor::new(caption_txt.as_bytes(), 0);

    assert!(aff_match_at(caption_txt.as_bytes(), cursor.pos()).is_none());
    cursor.goto_next_line();
    assert_eq!(2, cursor.pos());
    assert!(aff_match_at(caption_txt.as_bytes(), cursor.pos()).is_some());
}

#[test]
fn capturing_at_affiliated_re() {
    let mut text = String::new();
    text.push_str(r"#+attr_html: :file filename.ext");
    text.push_str("\n");
    text.push_str(r"#+caPtion[GIT]: org-rs");

    let maybe_affiliated = aff_match_at(text.as_bytes(), 0);
    assert!(maybe_affiliated.is_some());
}

#[test]
fn collect_affiliated_small() {
    let mut text = String::new();
    text.push_str(r"#+caPtion[GIT]: org-rs");
    text.push_str("\n");
    text.push_str(r"#+attr_html: :file filename.ext");
    text.push_str("\n\n");
    {
        // Orphaned keywords: a blank line follows them, so nothing is
        // collected and the cursor rewinds.
        let mut p = Parser::new(text.as_bytes(), ParseGranularity::Object, DefaultEnvironment);
        let maybe_collected = p.collect_affiliated_keywords(text.len());
        assert_eq!(0, maybe_collected.0);
        assert!(maybe_collected.1.is_none());
    }
    text.pop();
    text.push_str("#+BEGIN_SRC");

    let mut p = Parser::new(text.as_bytes(), ParseGranularity::Object, DefaultEnvironment);
    let maybe_collected = p.collect_affiliated_keywords(text.len());
    assert_eq!(0, maybe_collected.0);
    assert!(maybe_collected.1.is_some());
    let collected = maybe_collected.1.unwrap();

    let test_attrs = vec![AttrEntry {
        backend: b"ATTR_HTML".to_vec(),
        values: vec![b":file filename.ext".to_vec()],
    }];
    assert_eq!(test_attrs, collected.attr);

    let test_caption = vec![DualVal {
        value: StringOrObject::Raw(b"org-rs".to_vec()),
        secondary: Some(StringOrObject::Raw(b"GIT".to_vec())),
    }];
    assert_eq!(test_caption, collected.caption);
}

#[test]
fn collect_moves_past_keywords() {
    let text = "#+NAME: tbl\n#+HEADER: :x 1\n| a |\n";
    let mut p = Parser::new(text.as_bytes(), ParseGranularity::Object, DefaultEnvironment);
    let (origin, data) = p.collect_affiliated_keywords(text.len());
    assert_eq!(0, origin);
    let data = data.unwrap();
    assert_eq!(Some(b"tbl".to_vec()), data.name);
    assert_eq!(vec![b":x 1".to_vec()], data.header);
    assert_eq!(27, p.cursor.pos());
}
