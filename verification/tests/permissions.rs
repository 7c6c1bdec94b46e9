use file_utility::permissions::{permissions_to_string, string_to_permissions, triplet};

#[test]
fn test_roundtrip_permissions() {
    let str = "---rwxr-x";
    assert_eq!(
        str,
        permissions_to_string(string_to_permissions(str).unwrap())
    );
}

#[test]
fn decode_gives_the_bits_of_each_letter() {
    assert_eq!(string_to_permissions("---------"), Some(0));
    assert_eq!(string_to_permissions("rwxrwxrwx"), Some(0o777));
    assert_eq!(string_to_permissions("---rwxr-x"), Some(0o075));
    assert_eq!(string_to_permissions("rw-r--r--"), Some(0o644));
    assert_eq!(string_to_permissions("r--------"), Some(0o400));
    assert_eq!(string_to_permissions("-w-------"), Some(0o200));
    assert_eq!(string_to_permissions("--x------"), Some(0o100));
    assert_eq!(string_to_permissions("---r-----"), Some(0o040));
    assert_eq!(string_to_permissions("----w----"), Some(0o020));
    assert_eq!(string_to_permissions("-----x---"), Some(0o010));
    assert_eq!(string_to_permissions("------r--"), Some(0o004));
    assert_eq!(string_to_permissions("-------w-"), Some(0o002));
    assert_eq!(string_to_permissions("--------x"), Some(0o001));
}

#[test]
fn decode_refuses_every_other_length() {
    assert_eq!(string_to_permissions(""), None);
    assert_eq!(string_to_permissions("badinput"), None);
    assert_eq!(string_to_permissions("rwxrwxrw"), None);
    assert_eq!(string_to_permissions("rwxrwxrwxr"), None);
}

#[test]
fn decode_counts_characters() {
    // Nine characters, though more than nine bytes.
    assert_eq!(string_to_permissions("rwxéwxr-x"), Some(0o735));
    // Nine bytes, though fewer than nine characters.
    assert_eq!(string_to_permissions("éééé-"), None);
}

#[test]
fn decode_takes_whatever_is_not_the_letter_as_a_clear_bit() {
    assert_eq!(string_to_permissions("RWXRWXRWX"), Some(0));
    assert_eq!(string_to_permissions("xrwxrwxrw"), Some(0));
    assert_eq!(string_to_permissions("r?x.w-  x"), Some(0o521));
    assert_eq!(string_to_permissions("badinputs"), Some(0));
}

#[test]
fn encode_writes_each_of_the_eight_triplets() {
    assert_eq!(permissions_to_string(0o000), "---------");
    assert_eq!(permissions_to_string(0o421), "r---w---x");
    assert_eq!(permissions_to_string(0o124), "--x-w-r--");
    assert_eq!(permissions_to_string(0o563), "r-xrw--wx");
    assert_eq!(permissions_to_string(0o777), "rwxrwxrwx");
    assert_eq!(permissions_to_string(0o644), "rw-r--r--");
    assert_eq!(permissions_to_string(0o755), "rwxr-xr-x");
}

#[test]
fn encode_does_not_show_the_bits_above_the_nine() {
    assert_eq!(permissions_to_string(0o100644), "rw-r--r--");
    assert_eq!(permissions_to_string(0o7000), "---------");
    assert_eq!(permissions_to_string(0xffff), "rwxrwxrwx");
}

#[test]
fn triplet_goes_by_the_masks_it_is_given() {
    assert_eq!(triplet(0o640, 0o400, 0o200, 0o100), "rw-");
    assert_eq!(triplet(0o640, 0o040, 0o020, 0o010), "r--");
    assert_eq!(triplet(0o640, 0o004, 0o002, 0o001), "---");
    assert_eq!(triplet(0o007, 0o004, 0o002, 0o001), "rwx");
    assert_eq!(triplet(0o005, 0o004, 0o002, 0o001), "r-x");
    assert_eq!(triplet(0o003, 0o004, 0o002, 0o001), "-wx");
    assert_eq!(triplet(0o002, 0o004, 0o002, 0o001), "-w-");
    assert_eq!(triplet(0o001, 0o004, 0o002, 0o001), "--x");
}

#[test]
fn every_mode_comes_back_from_its_text() {
    let mut mode: u16 = 0;
    while mode <= 0o777 {
        let text = permissions_to_string(mode);
        assert_eq!(text.chars().count(), 9);
        assert_eq!(string_to_permissions(&text), Some(mode));
        mode += 1;
    }
}

#[test]
fn every_canonical_text_comes_back_from_its_mode() {
    let letters = ['r', 'w', 'x'];
    let mut pick: u16 = 0;
    while pick < 512 {
        let mut text = String::new();
        for place in 0..9 {
            if pick & (1 << place) != 0 {
                text.push(letters[place % 3]);
            } else {
                text.push('-');
            }
        }
        let mode = string_to_permissions(&text).unwrap();
        assert_eq!(permissions_to_string(mode), text);
        pick += 1;
    }
}
