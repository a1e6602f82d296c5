use hope_model::epub_parser::{extract_chapter_title, strip_html_tags};
use hope_model::ocr::{is_scanned_pdf, ocr_pdf_with_api, OcrError};
use hope_model::pdf_parser::{
    extract_structured_content, is_likely_heading, pdf_content_from_text, PdfTextError,
};
use hope_model::text_processor::{add_structure_markers, clean_text, remove_structure_markers};

#[test]
fn test_strip_html_tags() {
    let html = "<p>Hello <b>World</b>!</p>";
    let text = strip_html_tags(html);
    assert_eq!(text, "Hello World !");
}

#[test]
fn test_strip_script_tags() {
    let html = "<p>Text</p><script>alert('hi');</script><p>More text</p>";
    let text = strip_html_tags(html);
    assert!(text.contains("Text"));
    assert!(text.contains("More text"));
    assert!(!text.contains("alert"));
}

#[test]
fn test_strip_style_tags() {
    let html = "<div>Before</div><style>body { color: red; }</style><div>After</div>";
    let text = strip_html_tags(html);
    assert!(text.contains("Before"));
    assert!(text.contains("After"));
    assert!(!text.contains("color"));
}

#[test]
fn test_extract_chapter_title() {
    let content = "  \n\n  My Title  \nAnd then a lot of body text follows here.";
    assert_eq!(extract_chapter_title(content), Some("My Title".to_string()));
    assert_eq!(extract_chapter_title("\n \n \n"), None);
}

#[test]
fn test_is_likely_heading() {
    assert!(is_likely_heading("Chapter 1: Introduction"));
    assert!(is_likely_heading("INTRODUCTION"));
    assert!(is_likely_heading("1. Getting Started"));
    assert!(!is_likely_heading("This is a normal paragraph with some text."));
}

#[test]
fn test_is_likely_heading_more_patterns() {
    assert!(is_likely_heading("Section 2"));
    assert!(is_likely_heading("Part 4"));
    assert!(!is_likely_heading(""));
    assert!(!is_likely_heading("lowercase line"));
}

#[test]
fn test_clean_text() {
    let text = "Hello    World\n\n\n\nTest";
    let cleaned = clean_text(text);
    assert_eq!(cleaned, "Hello World\n\nTest");
}

#[test]
fn test_clean_text_page_numbers() {
    let text = "First line\n42\nPage 7\nSecond line";
    let cleaned = clean_text(text);
    assert!(!cleaned.contains("42"));
    assert!(!cleaned.contains("Page 7"));
    assert!(cleaned.contains("First line"));
    assert!(cleaned.contains("Second line"));
}

#[test]
fn test_add_structure_markers() {
    let sections =
        vec![("Chapter 1".to_string(), "This is content.\n\nSecond paragraph.".to_string())];

    let marked = add_structure_markers(sections);
    assert!(marked.contains("<CHAPTER>"));
    assert!(marked.contains("<PARAGRAPH>"));
}

#[test]
fn test_add_structure_markers_exact() {
    let sections = vec![("T".to_string(), "one\n\n  \n\ntwo".to_string())];
    let marked = add_structure_markers(sections);
    assert_eq!(
        marked,
        "<CHAPTER>T</CHAPTER>\n<PARAGRAPH>one</PARAGRAPH>\n<PARAGRAPH>two</PARAGRAPH>\n\n"
    );
}

#[test]
fn test_remove_structure_markers() {
    let text = "<CHAPTER>Title</CHAPTER><PARAGRAPH>Content</PARAGRAPH>";
    let cleaned = remove_structure_markers(text);
    assert_eq!(cleaned, "TitleContent");
}

#[test]
fn test_pdf_content_from_text() {
    let content = pdf_content_from_text("page one\u{000C}page two".to_string());
    assert!(content.has_text);
    assert_eq!(content.pages, vec!["page one".to_string(), "page two".to_string()]);
    let blank = pdf_content_from_text("  \n \n".to_string());
    assert!(!blank.has_text);
}

#[test]
fn test_extract_structured_content() {
    let text = "INTRODUCTION\nSome opening text.\nChapter 1: Beginnings\nBody of chapter one.";
    let sections = extract_structured_content(text).expect("text present");
    assert_eq!(sections.len(), 2);
    assert_eq!(sections[0].0, "INTRODUCTION");
    assert_eq!(sections[0].1, "Some opening text.");
    assert_eq!(sections[1].0, "Chapter 1: Beginnings");
    assert_eq!(sections[1].1, "Body of chapter one.");
}

#[test]
fn test_extract_structured_content_no_text() {
    assert_eq!(extract_structured_content("   \n  "), Err(PdfTextError::NoExtractableText));
}

#[test]
fn test_is_scanned_pdf() {
    assert!(is_scanned_pdf("  \n \t "));
    assert!(!is_scanned_pdf("actual words"));
}

#[test]
fn test_ocr_api_not_implemented() {
    let result = ocr_pdf_with_api("some.pdf", "");
    assert_eq!(result, Err(OcrError::ApiNotImplemented));
}
