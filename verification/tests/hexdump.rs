use serde_annotate::document::BytesFormat;
use serde_annotate::hexdump::{hexdump, hexstr, to_string, xxd};

#[test]
fn hexstr_is_lowercase_without_separators() {
    assert_eq!(hexstr(&[0x00, 0xff, 0x41, 0x0a, 0x9c]), "00ff410a9c");
}

#[test]
fn hexstr_of_nothing_is_empty() {
    assert_eq!(hexstr(&[]), "");
}

#[test]
fn to_string_has_no_text_for_the_standard_format() {
    assert_eq!(to_string(b"abc", BytesFormat::Standard), None);
    assert_eq!(to_string(&[], BytesFormat::Standard), None);
}

#[test]
fn to_string_renders_each_format() {
    let data = b"Hello World!\n\x00\x01\x02\x03";
    assert_eq!(
        to_string(data, BytesFormat::HexStr),
        Some("48656c6c6f20576f726c64210a00010203".to_string())
    );
    assert_eq!(
        to_string(data, BytesFormat::Hexdump),
        Some(
            "00000000  48 65 6c 6c 6f 20 57 6f  72 6c 64 21 0a 00 01 02  |Hello World!....|\n\
             00000010  03                                                |.|"
                .to_string()
        )
    );
    assert_eq!(
        to_string(data, BytesFormat::Xxd),
        Some(
            "00000000: 4865 6c6c 6f20 576f 726c 6421 0a00 0102  Hello World!....\n\
             00000010: 03                                       ."
                .to_string()
        )
    );
}

#[test]
fn hexdump_of_seventeen_bytes_has_two_lines() {
    let data: Vec<u8> = (0u8..17).collect();
    let text = hexdump(&data);
    let lines: Vec<&str> = text.split('\n').collect();
    assert_eq!(lines.len(), 2);
    assert_eq!(
        lines[0],
        "00000000  00 01 02 03 04 05 06 07  08 09 0a 0b 0c 0d 0e 0f  |................|"
    );
    assert_eq!(
        lines[1],
        "00000010  10                                                |.|"
    );
}

#[test]
fn xxd_of_seventeen_bytes_has_two_lines() {
    let data: Vec<u8> = (0u8..17).collect();
    let text = xxd(&data);
    let lines: Vec<&str> = text.split('\n').collect();
    assert_eq!(lines.len(), 2);
    assert_eq!(
        lines[0],
        "00000000: 0001 0203 0405 0607 0809 0a0b 0c0d 0e0f  ................"
    );
    assert_eq!(
        lines[1],
        "00000010: 10                                       ."
    );
}

#[test]
fn hexdump_of_three_lines() {
    let text = hexdump(b"The quick brown fox jumped over the lazy dog.\n");
    assert_eq!(
        text,
        "00000000  54 68 65 20 71 75 69 63  6b 20 62 72 6f 77 6e 20  |The quick brown |\n\
         00000010  66 6f 78 20 6a 75 6d 70  65 64 20 6f 76 65 72 20  |fox jumped over |\n\
         00000020  74 68 65 20 6c 61 7a 79  20 64 6f 67 2e 0a        |the lazy dog..|"
    );
}

#[test]
fn xxd_of_three_lines() {
    let text = xxd(b"The quick brown fox jumped over the lazy dog.\n");
    assert_eq!(
        text,
        "00000000: 5468 6520 7175 6963 6b20 6272 6f77 6e20  The quick brown \n\
         00000010: 666f 7820 6a75 6d70 6564 206f 7665 7220  fox jumped over \n\
         00000020: 7468 6520 6c61 7a79 2064 6f67 2e0a       the lazy dog.."
    );
}

#[test]
fn dumps_of_nothing_are_empty() {
    assert_eq!(hexdump(&[]), "");
    assert_eq!(xxd(&[]), "");
    assert_eq!(to_string(&[], BytesFormat::Hexdump), Some(String::new()));
    assert_eq!(to_string(&[], BytesFormat::Xxd), Some(String::new()));
    assert_eq!(to_string(&[], BytesFormat::HexStr), Some(String::new()));
}

#[test]
fn text_column_shows_printable_bytes_and_dots() {
    let data = [0x41, 0x00, 0x7e, 0x7f, 0x1f, 0x20, 0xff];
    assert_eq!(
        hexdump(&data),
        "00000000  41 00 7e 7f 1f 20 ff                              |A.~.. .|"
    );
    assert_eq!(
        xxd(&data),
        "00000000: 4100 7e7f 1f20 ff                        A.~.. ."
    );
}

#[test]
fn text_column_substitutes_for_every_byte_value() {
    let data: Vec<u8> = (0u8..=255).collect();
    let text = hexdump(&data);
    for (row, line) in text.split('\n').enumerate() {
        let column: Vec<char> = line[61..77].chars().collect();
        for (col, shown) in column.iter().enumerate() {
            let byte = (row * 16 + col) as u8;
            let expected = if (0x20..=0x7e).contains(&byte) {
                byte as char
            } else {
                '.'
            };
            assert_eq!(*shown, expected);
        }
    }
}

#[test]
fn dump_has_one_line_for_every_sixteen_bytes_begun() {
    for len in [0usize, 1, 15, 16, 17, 31, 32, 33, 255, 256, 257, 1000] {
        let data = vec![0x61u8; len];
        let expected = (len + 15) / 16;
        for format in [BytesFormat::Hexdump, BytesFormat::Xxd] {
            let text = to_string(&data, format).unwrap();
            let lines = if text.is_empty() {
                0
            } else {
                text.split('\n').count()
            };
            assert_eq!(lines, expected);
        }
    }
}

#[test]
fn dump_offsets_count_in_hex() {
    let data = vec![0u8; 16 * 18];
    let text = xxd(&data);
    let lines: Vec<&str> = text.split('\n').collect();
    assert_eq!(&lines[0][..10], "00000000: ");
    assert_eq!(&lines[10][..10], "000000a0: ");
    assert_eq!(&lines[16][..10], "00000100: ");
    assert_eq!(&lines[17][..10], "00000110: ");
}
