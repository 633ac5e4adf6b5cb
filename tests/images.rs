use findshlibs::{
    image_extent, image_for_slot, Enumeration, IterationControl, MachType, SharedLibrary,
    SlotError,
};

const LC_UUID: u32 = 0x1b;

fn push_u32(v: &mut Vec<u8>, x: u32) {
    v.extend_from_slice(&x.to_le_bytes());
}

fn push_u64(v: &mut Vec<u8>, x: u64) {
    v.extend_from_slice(&x.to_le_bytes());
}

fn push_name(v: &mut Vec<u8>, name: &str) {
    let mut field = [0u8; 16];
    field[..name.len()].copy_from_slice(name.as_bytes());
    v.extend_from_slice(&field);
}

/// A 64-bit segment command followed by its section records.
fn segment64(name: &str, vmaddr: u64, vmsize: u64, sections: &[(&str, u64, u64)]) -> Vec<u8> {
    let mut v = Vec::new();
    push_u32(&mut v, 0x19);
    push_u32(&mut v, 72 + 80 * sections.len() as u32);
    push_name(&mut v, name);
    push_u64(&mut v, vmaddr);
    push_u64(&mut v, vmsize);
    push_u64(&mut v, 0);
    push_u64(&mut v, vmsize);
    push_u32(&mut v, 7);
    push_u32(&mut v, 5);
    push_u32(&mut v, sections.len() as u32);
    push_u32(&mut v, 0);
    for (sect, addr, size) in sections {
        push_name(&mut v, sect);
        push_name(&mut v, name);
        push_u64(&mut v, *addr);
        push_u64(&mut v, *size);
        for _ in 0..8 {
            push_u32(&mut v, 0);
        }
    }
    assert_eq!(v.len(), 72 + 80 * sections.len());
    v
}

/// A 32-bit segment command followed by its section records.
fn segment32(name: &str, vmaddr: u32, vmsize: u32, sections: &[(&str, u32, u32)]) -> Vec<u8> {
    let mut v = Vec::new();
    push_u32(&mut v, 0x1);
    push_u32(&mut v, 56 + 68 * sections.len() as u32);
    push_name(&mut v, name);
    push_u32(&mut v, vmaddr);
    push_u32(&mut v, vmsize);
    push_u32(&mut v, 0);
    push_u32(&mut v, vmsize);
    push_u32(&mut v, 7);
    push_u32(&mut v, 5);
    push_u32(&mut v, sections.len() as u32);
    push_u32(&mut v, 0);
    for (sect, addr, size) in sections {
        push_name(&mut v, sect);
        push_name(&mut v, name);
        push_u32(&mut v, *addr);
        push_u32(&mut v, *size);
        for _ in 0..7 {
            push_u32(&mut v, 0);
        }
    }
    assert_eq!(v.len(), 56 + 68 * sections.len());
    v
}

/// A load command that is not a segment.
fn uuid_command() -> Vec<u8> {
    let mut v = Vec::new();
    push_u32(&mut v, LC_UUID);
    push_u32(&mut v, 24);
    v.extend_from_slice(&[0xab; 16]);
    v
}

fn image64(commands: &[Vec<u8>]) -> Vec<u8> {
    let size: usize = commands.iter().map(|c| c.len()).sum();
    let mut v = Vec::new();
    push_u32(&mut v, 0xfeedfacf);
    push_u32(&mut v, 0x0100_0007);
    push_u32(&mut v, 3);
    push_u32(&mut v, 6);
    push_u32(&mut v, commands.len() as u32);
    push_u32(&mut v, size as u32);
    push_u32(&mut v, 0);
    push_u32(&mut v, 0);
    for c in commands {
        v.extend_from_slice(c);
    }
    v
}

fn image32(commands: &[Vec<u8>]) -> Vec<u8> {
    let size: usize = commands.iter().map(|c| c.len()).sum();
    let mut v = Vec::new();
    push_u32(&mut v, 0xfeedface);
    push_u32(&mut v, 7);
    push_u32(&mut v, 3);
    push_u32(&mut v, 6);
    push_u32(&mut v, commands.len() as u32);
    push_u32(&mut v, size as u32);
    push_u32(&mut v, 0);
    for c in commands {
        v.extend_from_slice(c);
    }
    v
}

struct Slot {
    image: Vec<u8>,
    slide: isize,
    name: Option<Vec<u8>>,
}

fn slot(image: Vec<u8>, slide: isize, name: &str) -> Slot {
    Slot { image, slide, name: Some(name.as_bytes().to_vec()) }
}

/// A loader table such as a running process shows: the main program, the
/// loader's own library, a 32-bit image, and a slot whose header is gone.
fn table() -> Vec<Slot> {
    let program = image64(&[
        segment64("__PAGEZERO", 0, 0x1_0000_0000, &[]),
        segment64(
            "__TEXT",
            0x1_0000_0000,
            0x4000,
            &[
                ("__text", 0x1_0000_1000, 0x800),
                ("__unwind_info", 0x1_0000_1800, 0x40),
                ("__eh_frame", 0x1_0000_1840, 0x80),
            ],
        ),
        uuid_command(),
        segment64("__LINKEDIT", 0x1_0000_4000, 0x1000, &[]),
    ]);
    let dyld = image64(&[
        segment64(
            "__TEXT",
            0x1_8000_0000,
            0x2000,
            &[("__text", 0x1_8000_0400, 0x100), ("__eh_frame", 0x1_8000_0500, 0x20)],
        ),
        segment64("__DATA", 0x1_8000_2000, 0x1000, &[("__data", 0x1_8000_2000, 0x10)]),
    ]);
    let old = image32(&[segment32(
        "__TEXT",
        0x1000,
        0x2000,
        &[("__text", 0x1100, 0x200), ("__eh_frame", 0x1300, 0x40)],
    )]);
    let mut gone = image64(&[]);
    gone[0] = 0;
    vec![
        slot(program, 0x4000, "/usr/local/bin/tool"),
        slot(dyld, 0x1000, "/usr/lib/system/libdyld.dylib"),
        slot(gone, 0x2000, "/tmp/unmapped.dylib"),
        slot(old, 0x8000, "/usr/lib/libold.dylib"),
    ]
}

/// Runs one enumeration pass over `table`, as the loader-facing program does.
fn each<F: FnMut(&SharedLibrary) -> IterationControl>(table: &[Slot], mut f: F) {
    let mut e = Enumeration::new(table.len() as u32);
    while let Some(i) = e.next_slot() {
        let s = &table[i as usize];
        match image_for_slot(&s.image, s.slide, s.name.as_deref()) {
            Ok(None) => e.skip(),
            Ok(Some(lib)) => {
                let control = f(&lib);
                e.record(control);
            }
            Err(err) => panic!("inconsistent loader table: {:?}", err),
        }
    }
}

fn section_names(lib: &SharedLibrary) -> Vec<Vec<u8>> {
    let mut names = Vec::new();
    let mut it = lib.sections();
    while let Some(s) = it.next() {
        names.push(s.name().to_vec());
    }
    names
}

#[test]
fn have_eh_frame_section() {
    let table = table();
    let mut found_eh_frame_in_all_sections = false;
    let mut found_eh_frame_in_segment_sections = false;

    each(&table, |shlib| {
        let mut all = shlib.sections();
        while let Some(section) = all.next() {
            found_eh_frame_in_all_sections |= section.name() == b"__eh_frame";
        }

        let mut segments = shlib.segments();
        while let Some(segment) = segments.next() {
            let mut sections = segment.sections();
            while let Some(section) = sections.next() {
                found_eh_frame_in_segment_sections |= section.name() == b"__eh_frame";
            }
        }
        IterationControl::Continue
    });

    assert!(found_eh_frame_in_all_sections);
    assert!(found_eh_frame_in_segment_sections)
}

#[test]
fn have_libdyld() {
    let table = table();
    let mut found_dyld = false;
    each(&table, |shlib| {
        found_dyld |= shlib
            .name()
            .split(|c| *c == b'.' || *c == b'/')
            .find(|s| s == b"libdyld")
            .is_some();
        IterationControl::Continue
    });
    assert!(found_dyld);
}

#[test]
fn can_break() {
    let table = table();
    let mut first_count = 0;
    each(&table, |_| {
        first_count += 1;
        IterationControl::Continue
    });
    assert!(first_count > 2);

    let mut second_count = 0;
    each(&table, |_| {
        second_count += 1;

        if second_count == first_count - 1 {
            IterationControl::Break
        } else {
            IterationControl::Continue
        }
    });
    assert_eq!(second_count, first_count - 1);
}

#[test]
fn get_name() {
    let table = table();
    each(&table, |shlib| {
        let _ = shlib.name();
        IterationControl::Continue
    });
}

#[test]
fn have_text_or_pagezero() {
    let table = table();
    each(&table, |shlib| {
        println!("shlib = {:?}", String::from_utf8_lossy(shlib.name()));

        let mut found_text_or_pagezero = false;
        let mut segments = shlib.segments();
        while let Some(seg) = segments.next() {
            println!("    segment = {:?}", String::from_utf8_lossy(seg.name()));

            found_text_or_pagezero |= seg.name() == b"__TEXT";
            found_text_or_pagezero |= seg.name() == b"__PAGEZERO";
        }
        assert!(found_text_or_pagezero);
        IterationControl::Continue
    });
}

#[test]
fn every_visited_image_has_a_non_empty_name() {
    let table = table();
    let mut seen = 0;
    each(&table, |shlib| {
        assert!(!shlib.name().is_empty());
        seen += 1;
        IterationControl::Continue
    });
    assert_eq!(seen, 3);
}

#[test]
fn flat_and_nested_walks_agree_on_counts_and_order() {
    let table = table();
    each(&table, |shlib| {
        let mut nested = Vec::new();
        let mut declared = 0u64;
        let mut segments = shlib.segments();
        while let Some(seg) = segments.next() {
            declared += seg.section_count() as u64;
            let mut sections = seg.sections();
            while let Some(s) = sections.next() {
                nested.push(s.name().to_vec());
            }
        }
        let flat = section_names(shlib);
        assert_eq!(flat.len() as u64, declared);
        assert_eq!(flat, nested);
        IterationControl::Continue
    });
}

#[test]
fn all_sections_of_the_program_in_order() {
    let table = table();
    let lib = image_for_slot(&table[0].image, 0x4000, Some(b"/usr/local/bin/tool"))
        .unwrap()
        .unwrap();
    let names = section_names(&lib);
    let expected: Vec<Vec<u8>> =
        vec![b"__text".to_vec(), b"__unwind_info".to_vec(), b"__eh_frame".to_vec()];
    assert_eq!(names, expected);
}

#[test]
fn segments_skip_other_load_commands() {
    let table = table();
    let lib = image_for_slot(&table[0].image, 0x4000, Some(b"tool")).unwrap().unwrap();
    let mut names = Vec::new();
    let mut segments = lib.segments();
    while let Some(seg) = segments.next() {
        names.push(seg.name().to_vec());
    }
    let expected: Vec<Vec<u8>> =
        vec![b"__PAGEZERO".to_vec(), b"__TEXT".to_vec(), b"__LINKEDIT".to_vec()];
    assert_eq!(names, expected);
    assert!(segments.next().is_none());
}

#[test]
fn segment_fields_64() {
    let table = table();
    let lib = image_for_slot(&table[0].image, 0x4000, Some(b"tool")).unwrap().unwrap();
    let mut segments = lib.segments();
    let zero = segments.next().unwrap();
    assert_eq!(zero.stated_virtual_memory_address(), 0);
    assert_eq!(zero.len(), 0x1_0000_0000);
    assert_eq!(zero.section_count(), 0);
    let text = segments.next().unwrap();
    assert_eq!(text.name(), b"__TEXT");
    assert_eq!(text.stated_virtual_memory_address(), 0x1_0000_0000);
    assert_eq!(text.len(), 0x4000);
    assert_eq!(text.section_count(), 3);
}

#[test]
fn eh_frame_lookup_gives_the_section_and_stated_address() {
    let table = table();
    let lib = image_for_slot(&table[0].image, 0x4000, Some(b"tool")).unwrap().unwrap();
    let eh = lib.eh_frame().unwrap();
    assert_eq!(eh.name(), b"__eh_frame");
    assert_eq!(eh.stated_virtual_memory_address(), 0x1_0000_1840);
    assert_eq!(eh.len(), 0x80);
    assert_eq!(lib.runtime_address(eh.stated_virtual_memory_address()), Some(0x1_0000_5840));
    assert!(lib.eh_frame_hdr().is_none());
}

#[test]
fn eh_frame_hdr_lookup_takes_the_first_match() {
    let image = image64(&[
        segment64(
            "__TEXT",
            0x2000,
            0x1000,
            &[("__eh_frame_hdr", 0x2100, 0x18), ("__eh_frame", 0x2200, 0x30)],
        ),
        segment64("__DATA", 0x3000, 0x1000, &[("__eh_frame_hdr", 0x3100, 0x99)]),
    ]);
    let lib = image_for_slot(&image, 1, Some(b"x")).unwrap().unwrap();
    let hdr = lib.eh_frame_hdr().unwrap();
    assert_eq!(hdr.name(), b"__eh_frame_hdr");
    assert_eq!(hdr.stated_virtual_memory_address(), 0x2100);
    assert_eq!(hdr.len(), 0x18);
    let eh = lib.eh_frame().unwrap();
    assert_eq!(eh.stated_virtual_memory_address(), 0x2200);
    assert_eq!(eh.len(), 0x30);
}

#[test]
fn sections_of_a_32_bit_image() {
    let table = table();
    let lib = image_for_slot(&table[3].image, 0x8000, Some(b"old")).unwrap().unwrap();
    let mut segments = lib.segments();
    let text = segments.next().unwrap();
    assert!(segments.next().is_none());
    assert_eq!(text.name(), b"__TEXT");
    assert_eq!(text.stated_virtual_memory_address(), 0x1000);
    assert_eq!(text.len(), 0x2000);
    let mut sections = text.sections();
    let first = sections.next().unwrap();
    assert_eq!(first.name(), b"__text");
    assert_eq!(first.stated_virtual_memory_address(), 0x1100);
    assert_eq!(first.len(), 0x200);
    let eh = lib.eh_frame().unwrap();
    assert_eq!(eh.stated_virtual_memory_address(), 0x1300);
    assert_eq!(eh.len(), 0x40);
}

#[test]
fn name_filling_the_whole_field() {
    let image = image64(&[segment64("ABCDEFGHIJKLMNOP", 0, 0, &[("0123456789abcdef", 0, 0)])]);
    let lib = image_for_slot(&image, 1, Some(b"x")).unwrap().unwrap();
    let mut segments = lib.segments();
    let seg = segments.next().unwrap();
    assert_eq!(seg.name(), b"ABCDEFGHIJKLMNOP");
    let mut sections = seg.sections();
    assert_eq!(sections.next().unwrap().name(), b"0123456789abcdef");
}

#[test]
fn truncated_section_array_stops_the_walk() {
    let mut seg = segment64("__TEXT", 0, 0, &[("__a", 1, 2), ("__b", 3, 4)]);
    // Declare five sections where only two records follow.
    seg[64..68].copy_from_slice(&5u32.to_le_bytes());
    let image = image64(&[seg]);
    let lib = image_for_slot(&image, 1, Some(b"x")).unwrap().unwrap();
    let mut segments = lib.segments();
    let s = segments.next().unwrap();
    assert_eq!(s.section_count(), 5);
    assert_eq!(section_names(&lib), vec![b"__a".to_vec(), b"__b".to_vec()]);
}

#[test]
fn command_size_past_the_end_ends_the_walk() {
    let mut first = segment64("__TEXT", 0, 0, &[]);
    first[4..8].copy_from_slice(&0x10000u32.to_le_bytes());
    let image = image64(&[first, segment64("__DATA", 0, 0, &[])]);
    let lib = image_for_slot(&image, 1, Some(b"x")).unwrap().unwrap();
    let mut segments = lib.segments();
    assert_eq!(segments.next().unwrap().name(), b"__TEXT");
    assert!(segments.next().is_none());
}

#[test]
fn image_with_no_commands() {
    let image = image64(&[]);
    let lib = image_for_slot(&image, 1, Some(b"x")).unwrap().unwrap();
    assert!(lib.segments().next().is_none());
    assert!(lib.sections().next().is_none());
    assert!(lib.eh_frame().is_none());
}

#[test]
fn unrecognized_header_is_skipped() {
    let mut image = image64(&[]);
    image[0] = 0x12;
    assert!(matches!(image_for_slot(&image, 1, Some(b"x")), Ok(None)));
    assert!(matches!(image_for_slot(&[0xcf, 0xfa], 1, Some(b"x")), Ok(None)));
    // A 64-bit magic with fewer bytes than its header.
    let short = image64(&[]);
    assert!(matches!(image_for_slot(&short[..30], 1, Some(b"x")), Ok(None)));
}

#[test]
fn zero_slide_is_inconsistent() {
    let image = image64(&[]);
    assert!(matches!(image_for_slot(&image, 0, Some(b"x")), Err(SlotError::ZeroSlide)));
}

#[test]
fn missing_name_is_inconsistent() {
    let image = image64(&[]);
    assert!(matches!(image_for_slot(&image, 5, None), Err(SlotError::MissingName)));
}

#[test]
fn slot_gives_bias_and_name() {
    let image = image32(&[]);
    let lib = image_for_slot(&image, -0x3000, Some(b"/usr/lib/a.dylib")).unwrap().unwrap();
    assert_eq!(lib.virtual_memory_bias(), -0x3000);
    assert_eq!(lib.name(), b"/usr/lib/a.dylib");
}

#[test]
fn header_classification() {
    assert_eq!(MachType::from_magic(0xfeedface), Some(MachType::Mach32));
    assert_eq!(MachType::from_magic(0xfeedfacf), Some(MachType::Mach64));
    assert_eq!(MachType::from_magic(0xcefaedfe), None);
    assert_eq!(MachType::from_header_bytes(&image32(&[])), Some(MachType::Mach32));
    assert_eq!(MachType::from_header_bytes(&[0xcf, 0xfa, 0xed]), None);
    assert_eq!(MachType::Mach32.section_size(), 68);
    assert_eq!(MachType::Mach64.segment_command_size(), 72);
    assert_eq!(MachType::Mach64.header_size(), 32);
}

#[test]
fn image_extent_covers_header_and_commands() {
    let image = image64(&[segment64("__TEXT", 0, 0, &[("__text", 0, 0)]), uuid_command()]);
    assert_eq!(image_extent(&image[..32]), Some(32 + 152 + 24));
    assert_eq!(image_extent(&image), Some(image.len()));
    let old = image32(&[uuid_command()]);
    assert_eq!(image_extent(&old), Some(28 + 24));
    assert_eq!(image_extent(&image[..20]), None);
    assert_eq!(image_extent(&[0u8; 32]), None);
}

#[test]
fn enumeration_steps() {
    let mut e = Enumeration::new(3);
    assert_eq!(e.next_slot(), Some(0));
    e.skip();
    assert_eq!(e.next_slot(), Some(1));
    e.record(IterationControl::Continue);
    assert_eq!(e.visited(), 1);
    assert_eq!(e.next_slot(), Some(2));
    e.record(IterationControl::Break);
    assert_eq!(e.next_slot(), None);
    assert_eq!(e.visited(), 2);

    let mut b = Enumeration::new(3);
    b.record(IterationControl::Break);
    assert_eq!(b.next_slot(), None);
    assert_eq!(b.visited(), 1);

    assert_eq!(Enumeration::new(0).next_slot(), None);
}

#[test]
fn break_on_each_call_ends_there() {
    let table = table();
    let mut total = 0;
    each(&table, |_| {
        total += 1;
        IterationControl::Continue
    });
    for k in 1..=total {
        let mut calls = 0;
        each(&table, |_| {
            calls += 1;
            if calls == k { IterationControl::Break } else { IterationControl::Continue }
        });
        assert_eq!(calls, k);
    }
}

#[test]
fn runtime_address_adds_the_bias() {
    let image = image64(&[]);
    let up = image_for_slot(&image, 0x1000, Some(b"x")).unwrap().unwrap();
    assert_eq!(up.runtime_address(0x2000), Some(0x3000));
    assert_eq!(up.runtime_address(u64::MAX), None);
    let down = image_for_slot(&image, -0x1000, Some(b"x")).unwrap().unwrap();
    assert_eq!(down.runtime_address(0x2000), Some(0x1000));
    assert_eq!(down.runtime_address(0x1000), Some(0));
    assert_eq!(down.runtime_address(0xfff), None);
}
