use vault::authority::{AuthoritySeeds, VAULT_AUTHORITY_SEED};
use vault::name::padded_name;
use vault::state::Vault;
use vault::strip::{is_ascii_whitespace, strip_bounds, StripAsciiWhitespace};

#[test]
fn whitespace_is_what_the_standard_library_says() {
    for b in 0..=255u8 {
        assert_eq!(is_ascii_whitespace(b), b.is_ascii_whitespace());
    }
    assert!(is_ascii_whitespace(b' '));
    assert!(is_ascii_whitespace(b'\t'));
    assert!(is_ascii_whitespace(b'\n'));
    assert!(is_ascii_whitespace(0x0c));
    assert!(is_ascii_whitespace(b'\r'));
    assert!(!is_ascii_whitespace(0x0b));
    assert!(!is_ascii_whitespace(b'a'));
    assert!(!is_ascii_whitespace(0));
}

#[test]
fn strip_drops_whitespace_at_both_ends() {
    assert_eq!(b"  vault \t\r\n".to_vec().strip(), b"vault");
    assert_eq!(b"vault".to_vec().strip(), b"vault");
    assert_eq!(b"vault   ".to_vec().strip(), b"vault");
    assert_eq!(b"\x0cvault".to_vec().strip(), b"vault");
}

#[test]
fn strip_keeps_whitespace_inside() {
    assert_eq!(b" my vault ".to_vec().strip(), b"my vault");
    assert_eq!(b"a \t b".to_vec().strip(), b"a \t b");
}

#[test]
fn strip_of_nothing_but_whitespace_is_empty() {
    assert_eq!(b"".to_vec().strip(), b"");
    assert_eq!(b" ".to_vec().strip(), b"");
    assert_eq!(b" \t\n\x0c\r ".to_vec().strip(), b"");
    assert_eq!(strip_bounds(b"    "), (0, 0));
    assert_eq!(strip_bounds(b""), (0, 0));
}

#[test]
fn strip_of_a_single_byte() {
    assert_eq!(b"x".to_vec().strip(), b"x");
    assert_eq!(b" x".to_vec().strip(), b"x");
    assert_eq!(b"x ".to_vec().strip(), b"x");
    assert_eq!(strip_bounds(b"  x "), (2, 3));
}

#[test]
fn strip_does_not_take_vertical_tab_for_whitespace() {
    assert_eq!(b"\x0bv\x0b".to_vec().strip(), b"\x0bv\x0b");
    assert_eq!(b" \x0b ".to_vec().strip(), b"\x0b");
}

#[test]
fn strip_on_slices_and_stored_names() {
    let bytes: &[u8] = b"  pool  ";
    assert_eq!(bytes.strip(), b"pool");
    let stored: [u8; 20] = *b"pool                ";
    assert_eq!(stored.strip(), b"pool");
}

#[test]
fn strip_bounds_name_the_kept_bytes() {
    let bytes = b"\t\tabc def\n";
    let (from, to) = strip_bounds(bytes);
    assert_eq!((from, to), (2, 9));
    assert_eq!(&bytes[from..to], b"abc def");
}

#[test]
fn names_are_stored_filled_up_with_spaces() {
    assert_eq!(&padded_name(b"pool"), b"pool                ");
    assert_eq!(&padded_name(b""), b"                    ");
    assert_eq!(&padded_name(b"exactly twenty bytes"), b"exactly twenty bytes");
    assert_eq!(&padded_name(b" a "), b" a                  ");
}

#[test]
fn stripping_a_stored_name_gives_the_name_back() {
    let names: [&[u8]; 5] = [b"pool", b"", b"exactly twenty bytes", b"my vault", b"x"];
    for name in names {
        assert_eq!(padded_name(name).strip(), name);
    }
}

#[test]
fn stripping_a_stored_name_drops_whitespace_of_the_name_itself() {
    assert_eq!(padded_name(b" pool").strip(), b"pool");
    assert_eq!(padded_name(b"pool\t").strip(), b"pool");
}

#[test]
fn the_fixed_word_of_the_authority() {
    assert_eq!(&VAULT_AUTHORITY_SEED, b"vault-authority");
}

#[test]
fn authority_of_a_vault_is_named_by_the_trimmed_name() {
    let mut vault = Vault::default();
    vault.vault_name = padded_name(b"pool");
    vault.bumps.vault_authority = 254;
    let authority = AuthoritySeeds::of_vault(&vault);
    assert_eq!(authority.vault_name, vault.vault_name);
    assert_eq!((authority.from, authority.to), (0, 4));
    assert_eq!(authority.bump, 254);
    assert_eq!(authority.name_seed(), b"pool");
    assert_eq!(
        authority.signer_seeds(),
        vec![b"vault-authority".to_vec(), b"pool".to_vec(), vec![254u8]]
    );
}

#[test]
fn authority_of_a_vault_whose_name_begins_with_whitespace() {
    let mut vault = Vault::default();
    vault.vault_name = padded_name(b"  pool");
    vault.bumps.vault_authority = 7;
    let authority = AuthoritySeeds::of_vault(&vault);
    assert_eq!((authority.from, authority.to), (2, 6));
    assert_eq!(authority.name_seed(), b"pool");
    assert_eq!(
        authority.signer_seeds(),
        vec![b"vault-authority".to_vec(), b"pool".to_vec(), vec![7u8]]
    );
}

#[test]
fn authority_of_a_vault_without_a_name() {
    let mut vault = Vault::default();
    vault.vault_name = padded_name(b"");
    let authority = AuthoritySeeds::of_vault(&vault);
    assert_eq!((authority.from, authority.to), (0, 0));
    assert_eq!(authority.name_seed(), b"");
    assert_eq!(
        authority.signer_seeds(),
        vec![b"vault-authority".to_vec(), Vec::new(), vec![0u8]]
    );
}
