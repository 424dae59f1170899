use linuos::cmdline::parse_cmdline;

const WHITE_SPACE: [u32; 25] = [
    0x09, 0x0a, 0x0b, 0x0c, 0x0d, 0x20, 0x85, 0xa0, 0x1680, 0x2000, 0x2001, 0x2002, 0x2003, 0x2004,
    0x2005, 0x2006, 0x2007, 0x2008, 0x2009, 0x200a, 0x2028, 0x2029, 0x202f, 0x205f, 0x3000,
];

#[test]
fn root_device_and_quiet() {
    let cmdline = parse_cmdline("console=ttyS0 root=/dev/vda quiet\n").unwrap();
    assert!(cmdline.quiet);
    assert_eq!(cmdline.root, "/dev/vda");
    let cmdline = parse_cmdline("root=/dev/sda1").unwrap();
    assert!(!cmdline.quiet);
    assert_eq!(cmdline.root, "/dev/sda1");
}

#[test]
fn no_root_device() {
    assert!(parse_cmdline("").is_none());
    assert!(parse_cmdline("   \n").is_none());
    assert!(parse_cmdline("quiet console=ttyS0").is_none());
    assert!(parse_cmdline("xroot=/dev/vda").is_none());
    assert!(parse_cmdline("root /dev/vda").is_none());
    assert!(parse_cmdline("ROOT=/dev/vda").is_none());
}

#[test]
fn first_root_word_counts() {
    let cmdline = parse_cmdline("  root=/dev/vda\troot=/dev/vdb  ").unwrap();
    assert_eq!(cmdline.root, "/dev/vda");
}

#[test]
fn repeated_prefix_is_dropped() {
    assert_eq!(parse_cmdline("root=root=root=x").unwrap().root, "x");
    assert_eq!(parse_cmdline("root=").unwrap().root, "");
    assert_eq!(parse_cmdline("root=root=").unwrap().root, "");
    assert_eq!(parse_cmdline("root=roo root=t").unwrap().root, "roo");
    assert_eq!(parse_cmdline("root=a=root=b").unwrap().root, "a=root=b");
}

#[test]
fn quiet_is_a_prefix_too() {
    assert!(parse_cmdline("root=x quietly").unwrap().quiet);
    assert!(parse_cmdline("quiet=0 root=x").unwrap().quiet);
    assert!(!parse_cmdline("root=x notquiet").unwrap().quiet);
    assert!(!parse_cmdline("root=x QUIET").unwrap().quiet);
    assert!(!parse_cmdline("root=quiet").unwrap().quiet);
    assert!(!parse_cmdline("root=x quie t").unwrap().quiet);
}

#[test]
fn words_may_hold_any_characters() {
    let cmdline = parse_cmdline("root=/dev/disk/by-label/r\u{f6}\u{20ac}t quiet").unwrap();
    assert_eq!(cmdline.root, "/dev/disk/by-label/r\u{f6}\u{20ac}t");
    assert!(cmdline.quiet);
}

#[test]
fn white_space_is_what_unicode_says() {
    // every character up to the last white space and a little beyond, and
    // a sample of the rest
    let codes = (0..0x4000u32).chain((0x4000..=0x10ffff).step_by(97));
    for code in codes {
        let Some(c) = char::from_u32(code) else { continue };
        let line = format!("root=a{}quiet", c);
        let cmdline = parse_cmdline(&line).unwrap();
        if WHITE_SPACE.contains(&code) {
            assert_eq!(cmdline.root, "a", "U+{:04X}", code);
            assert!(cmdline.quiet, "U+{:04X}", code);
        } else {
            assert_eq!(cmdline.root, format!("a{}quiet", c), "U+{:04X}", code);
            assert!(!cmdline.quiet, "U+{:04X}", code);
        }
    }
}

#[test]
fn agrees_with_the_splitting_of_std() {
    let lines = [
        "BOOT_IMAGE=/vmlinuz root=/dev/vda ro quiet splash",
        "\u{a0}root=x\u{2003}quiet",
        "a  b\t\tc\n\nroot=root=z\r\n",
        "root=\u{3000}quiet",
        "quiet",
        "rootroot= root=1 root=2",
    ];
    for line in lines {
        let words: Vec<&str> = line.split_whitespace().collect();
        let quiet = words.iter().any(|word| word.starts_with("quiet"));
        let root = words
            .iter()
            .find(|word| word.starts_with("root="))
            .map(|word| word.trim_start_matches("root=").to_string());
        let parsed = parse_cmdline(line);
        assert_eq!(parsed.as_ref().map(|cmdline| cmdline.root.clone()), root, "{:?}", line);
        if let Some(cmdline) = parsed {
            assert_eq!(cmdline.quiet, quiet, "{:?}", line);
        }
    }
}
