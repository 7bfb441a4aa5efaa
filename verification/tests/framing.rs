use bytes::BytesMut;
use twotter::framing::{frame_line, next_line, LineError};

#[test]
fn frame_adds_newline() {
    let b = frame_line("{\"Feed\":0}");
    assert_eq!(&b[..], b"{\"Feed\":0}\n");
    let e = frame_line("");
    assert_eq!(&e[..], b"\n");
}

#[test]
fn no_line_until_newline() {
    let mut b = BytesMut::from(&b"partial"[..]);
    assert_eq!(next_line(&mut b), Ok(None));
    assert_eq!(&b[..], b"partial");
    b.extend_from_slice(b" line\r\nnext");
    assert_eq!(next_line(&mut b), Ok(Some(String::from("partial line"))));
    assert_eq!(&b[..], b"next");
    assert_eq!(next_line(&mut b), Ok(None));
}

#[test]
fn lines_one_by_one() {
    let mut b = BytesMut::from(&b"a\nb\n\n"[..]);
    assert_eq!(next_line(&mut b), Ok(Some(String::from("a"))));
    assert_eq!(next_line(&mut b), Ok(Some(String::from("b"))));
    assert_eq!(next_line(&mut b), Ok(Some(String::from(""))));
    assert_eq!(next_line(&mut b), Ok(None));
    assert!(b.is_empty());
}

#[test]
fn not_utf8_line_is_refused_and_dropped() {
    let mut b = BytesMut::from(&[0xffu8, 0xfe, b'\n', b'o', b'k', b'\n'][..]);
    assert_eq!(next_line(&mut b), Err(LineError::NotUtf8));
    assert_eq!(next_line(&mut b), Ok(Some(String::from("ok"))));
}

#[test]
fn framed_line_reads_back() {
    let mut b = frame_line("héllo");
    assert_eq!(next_line(&mut b), Ok(Some(String::from("héllo"))));
    assert!(b.is_empty());
}
