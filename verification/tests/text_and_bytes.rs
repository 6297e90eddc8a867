use anystore::bytes::checksum;
use anystore::bytes::count_words;
use anystore::bytes::has_extension;
use anystore::bytes::zero_out;
use anystore::bytes::ByteBuffer;
use anystore::color::Color;
use std::path::PathBuf;
use std::str::FromStr;


#[test]
fn test_count_words_str() {
    assert_eq!(count_words("hello world"), 2);
    assert_eq!(count_words("one two three four"), 4);
    assert_eq!(count_words(""), 0);
}

#[test]
fn test_count_words_string() {
    let s = String::from("rust is awesome");
    assert_eq!(count_words(&s), 3);

    let s2 = String::from("one two");
    assert_eq!(count_words(&s2), 2);
}

#[test]
fn test_has_extension_str() {
    assert!(has_extension("a.txt", "txt"));
    assert!(has_extension("b.bin", &String::from("bin")));
    assert!(!has_extension("keep", "txt"));
}

#[test]
fn test_has_extension_pathbuf() {
    let path = PathBuf::from("/home/user/code.rs");
    assert!(has_extension(path.to_str().unwrap(), "rs"));
    assert!(!has_extension(path.to_str().unwrap(), "txt"));

    let path = PathBuf::from("/home/etc/serv.conf");
    assert!(has_extension(path.to_str().unwrap(), "conf"));
}

#[test]
fn test_has_extension_mixed_types() {
    let path = PathBuf::from("document.pdf");
    let ext = String::from("pdf");

    assert!(has_extension(path.to_str().unwrap(), &ext));
    assert!(has_extension("document.pdf", "pdf"));
    assert!(has_extension(path.to_str().unwrap(), &ext));
}

#[test]
fn test_byte_buffer_as_ref() {
    let buf = ByteBuffer::new_from_str("hello");

    let sum = checksum(buf.as_bytes());
    assert_eq!(
        sum,
        b'h' as u32 + b'e' as u32 + b'l' as u32 + b'l' as u32 + b'o' as u32
    );
}

#[test]
fn test_checksum_multiple_types() {
    let buf = ByteBuffer::new(vec![1, 2, 3]);
    assert_eq!(checksum(buf.as_bytes()), 6);

    let vec = vec![10_u8, 20_u8, 30_u8];
    assert_eq!(checksum(&vec), 60);

    let slice: &[u8] = &[5, 5, 5];
    assert_eq!(checksum(slice), 15);
}

#[test]
fn test_as_mut_zero_out() {
    let mut buf = ByteBuffer::new(vec![1, 2, 3, 4, 5]);
    assert_eq!(checksum(buf.as_bytes()), 15);

    zero_out(buf.as_mut_vec());
    assert_eq!(checksum(buf.as_bytes()), 0);

    assert_eq!(buf.as_bytes(), &[0, 0, 0, 0, 0]);
}

#[test]
fn test_as_mut_vec() {
    let mut vec: Vec<u8> = vec![100, 200];
    zero_out(&mut vec);
    assert_eq!(vec, vec![0, 0]);
}

#[test]
fn test_color_from_str_csv() {

    let color: Color = "255,128,0".parse().unwrap();
    assert_eq!(color, Color::new(255, 128, 0));

    let color: Color = " 0, 255, 128 ".parse().unwrap();
    assert_eq!(color, Color::new(0, 255, 128));
}

#[test]
fn test_color_from_str_hex() {

    let color: Color = "#FF8000".parse().unwrap();
    assert_eq!(color, Color::new(255, 128, 0));

    let color: Color = "#000000".parse().unwrap();
    assert_eq!(color, Color::new(0, 0, 0));

    let color: Color = "#FFFFFF".parse().unwrap();
    assert_eq!(color, Color::new(255, 255, 255));
}

#[test]
fn test_color_from_str_errors() {

    let result: Result<Color, _> = "invalid".parse();
    assert!(result.is_err());

    let result: Result<Color, _> = "1,2".parse();
    assert!(result.is_err());

    let result: Result<Color, _> = "#GGGGGG".parse();
    assert!(result.is_err());
}

#[test]
fn test_color_to_string() {

    let color = Color::new(255, 128, 0);
    assert_eq!(color.to_string(), "#FF8000");

    let color = Color::new(0, 0, 0);
    assert_eq!(color.to_string(), "#000000");
}

#[test]
fn test_color_roundtrip() {

    let color = Color::new(100, 150, 200);
    let as_string = color.to_string();
    let parsed: Color = as_string.parse().unwrap();

    assert_eq!(color, parsed);
}

#[test]
fn test_parse_turbofish() {

    let color = "128,64,32".parse::<Color>().unwrap();
    assert_eq!(color.r, 128);

    let color = Color::from_str("#AABBCC").unwrap();
    assert_eq!(color, Color::new(170, 187, 204));
}

#[test]
fn color_error_messages_are_exact() {
    assert_eq!(
        Color::parse_hex("#FFF").unwrap_err().message,
        "Hex color must be 7 chars (#RRGGBB): #FFF"
    );
    assert_eq!(Color::parse_hex("#GGGGGG").unwrap_err().message, "Invalid hex color: #GGGGGG");
    assert_eq!(Color::parse_csv("1,2").unwrap_err().message, "Expected r,g,b format: 1,2");
    assert_eq!(Color::parse_csv("1,2,256").unwrap_err().to_string(), "Invalid RGB values: 1,2,256");
    assert_eq!(Color::parse("  #év  ").unwrap_err().message, "Hex color must be 7 chars (#RRGGBB): #év");
    assert!(Color::parse_hex("#éé12").is_err());
}

#[test]
fn color_assemble_needs_all_three_parts() {
    assert_eq!(Color::assemble(Some(1), Some(2), Some(3), "p: ", "t"), Ok(Color::new(1, 2, 3)));
    assert_eq!(Color::assemble(Some(1), None, Some(3), "p: ", "t").unwrap_err().message, "p: t");
}

#[test]
fn byte_buffer_length_and_emptiness() {
    assert!(ByteBuffer::new(vec![]).is_empty());
    assert_eq!(ByteBuffer::new_from_str("héllo").len(), 6);
    assert_eq!(checksum(&[255, 255, 1]), 511);
    assert_eq!(checksum(&[]), 0);
    assert_eq!(count_words("  spaced\tout\nwords  "), 3);
    assert!(!has_extension("archive.tar.gz", "tar"));
    assert!(has_extension("archive.tar.gz", "gz"));
    assert!(!has_extension(".hidden", "hidden"));
}
