use datasets::FormatError;
use datasets::header::validate;

fn push_be(v: &mut Vec<u8>, x: u32) {
    v.push((x >> 24) as u8);
    v.push((x >> 16) as u8);
    v.push((x >> 8) as u8);
    v.push(x as u8);
}

fn header(fields: &[u32]) -> Vec<u8> {
    let mut v: Vec<u8> = Vec::new();
    for &f in fields {
        push_be(&mut v, f);
    }
    v
}

#[test]
fn validate_without_geometry_consumes_eight_bytes() {
    let h = header(&[0x0000_0801, 42]);
    assert_eq!(validate(&h, 0x0000_0801, 42, None), Ok(8));
}

#[test]
fn validate_with_geometry_consumes_sixteen_bytes() {
    let h = header(&[0x0000_0803, 7, 28, 28]);
    assert_eq!(validate(&h, 0x0000_0803, 7, Some((28, 28))), Ok(16));
}

#[test]
fn validate_reports_magic_before_count() {
    let h = header(&[0x0000_0804, 999, 28, 28]);
    assert_eq!(
        validate(&h, 0x0000_0803, 7, Some((28, 28))),
        Err(FormatError::BadMagic)
    );
}

#[test]
fn validate_reports_count_before_geometry() {
    let h = header(&[0x0000_0803, 999, 5, 5]);
    assert_eq!(
        validate(&h, 0x0000_0803, 7, Some((28, 28))),
        Err(FormatError::BadLength)
    );
}

#[test]
fn validate_rejects_wrong_geometry() {
    let h = header(&[0x0000_0803, 7, 29, 28]);
    assert_eq!(
        validate(&h, 0x0000_0803, 7, Some((28, 28))),
        Err(FormatError::BadGeometry)
    );
}

#[test]
fn validate_rejects_short_header() {
    let h = header(&[0x0000_0803]);
    assert_eq!(validate(&h, 0x0000_0803, 7, None), Err(FormatError::TruncatedData));
    let h2 = header(&[0x0000_0803, 7]);
    assert_eq!(
        validate(&h2, 0x0000_0803, 7, Some((28, 28))),
        Err(FormatError::TruncatedData)
    );
}
