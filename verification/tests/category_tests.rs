use dream_stack::category::{parse_category, AttachmentType};

#[test]
fn string_values_are_the_stored_strings() {
    assert_eq!(AttachmentType::Pdf.string_value().as_str(), "Pdf");
    assert_eq!(AttachmentType::Image.string_value().as_str(), "Image");
    assert_eq!(AttachmentType::Excel.string_value().as_str(), "Excel");
    assert_eq!(AttachmentType::Csv.string_value().as_str(), "Csv");
    assert_eq!(AttachmentType::Zip.string_value().as_str(), "Zip");
}

#[test]
fn every_category_round_trips_through_its_string() {
    let all = [
        AttachmentType::Pdf,
        AttachmentType::Image,
        AttachmentType::Excel,
        AttachmentType::Csv,
        AttachmentType::Zip,
    ];
    for c in all {
        let s = c.string_value();
        assert_eq!(parse_category(s.as_str()), Some(c));
    }
}

#[test]
fn strings_outside_the_enumeration_are_rejected() {
    assert_eq!(parse_category("pdf"), None);
    assert_eq!(parse_category("Word"), None);
    assert_eq!(parse_category(""), None);
    assert_eq!(parse_category("Pdf "), None);
    assert_eq!(parse_category("IMAGE"), None);
}
