use clang::cxstring::{empty_cxstring, CXString};
use clang::location::{
    file_inclusions, new_file_inclusion, CXFile, CXSourceLocation, Expansion, FileInclusion,
    RawFileInclusion,
};

fn location(n: usize) -> CXSourceLocation {
    CXSourceLocation { ptr_data0: n, ptr_data1: n + 1, int_data: n as u32 }
}

#[test]
fn empty_string_record() {
    assert_eq!(empty_cxstring(), CXString { data: 0, private_flags: 0 });
}

#[test]
fn expansion_keeps_its_parts() {
    let e = Expansion::new(CXFile { handle: 9 }, 12, 3, 140);
    assert_eq!(e.file, CXFile { handle: 9 });
    assert_eq!(e.line, 12);
    assert_eq!(e.column, 3);
    assert_eq!(e.offset, 140);
}

#[test]
fn location_text() {
    let e = Expansion::new(CXFile { handle: 9 }, 12, 3, 140);
    assert_eq!(e.to_str("foo.c"), "<source_location file foo.c, line 12, column 3>");
    let z = Expansion::new(CXFile { handle: 0 }, 0, 0, 0);
    assert_eq!(z.to_str(""), "<source_location file , line 0, column 0>");
    let big = Expansion::new(CXFile { handle: 1 }, u32::MAX, 1000000, 7);
    assert_eq!(
        big.to_str("/usr/include/stdio.h"),
        "<source_location file /usr/include/stdio.h, line 4294967295, column 1000000>"
    );
    let tens = Expansion::new(CXFile { handle: 1 }, 10, 109, 7);
    assert_eq!(tens.to_str("a.h"), "<source_location file a.h, line 10, column 109>");
}

#[test]
fn file_inclusion_keeps_its_parts() {
    let raw = RawFileInclusion { included_file: CXFile { handle: 5 }, location: location(3), depth: 2 };
    assert_eq!(
        new_file_inclusion(raw),
        FileInclusion { included_file: CXFile { handle: 5 }, location: location(3), depth: 2 }
    );
}

#[test]
fn file_inclusions_in_order() {
    let raw: Vec<RawFileInclusion> = (0..4)
        .map(|i| RawFileInclusion {
            included_file: CXFile { handle: 10 + i },
            location: location(i),
            depth: i,
        })
        .collect();
    let incs = file_inclusions(&raw);
    assert_eq!(incs.len(), 4);
    for (i, inc) in incs.iter().enumerate() {
        assert_eq!(inc.included_file, CXFile { handle: 10 + i });
        assert_eq!(inc.location, location(i));
        assert_eq!(inc.depth, i);
    }
    assert!(file_inclusions(&Vec::new()).is_empty());
}
