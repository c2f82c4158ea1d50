use pipeacl::acl::{parse_acl, Ace, AceKind};
use pipeacl::analyze::analyze_dacl;
use pipeacl::cache::PrincipalCache;
use pipeacl::mask::{
    format_access_mask, is_writable_mask, FILE_READ_DATA, FILE_WRITE_DATA, GENERIC_ALL,
    GENERIC_READ, GENERIC_WRITE, WRITABLE_MASK, WRITE_DAC, WRITE_OWNER,
};
use pipeacl::report::{collect_reports, scan_exit_code, PipeInfo};
use pipeacl::sid::{classify_sid, is_interesting_sid, sid_to_string, PrincipalClass};

fn sid(authority: u64, subs: &[u32]) -> Vec<u8> {
    let mut b = vec![1u8, subs.len() as u8];
    for shift in (0..6).rev() {
        b.push((authority >> (8 * shift)) as u8);
    }
    for s in subs {
        b.extend_from_slice(&s.to_le_bytes());
    }
    b
}

fn everyone() -> Vec<u8> {
    sid(1, &[0])
}

fn authenticated_users() -> Vec<u8> {
    sid(5, &[11])
}

fn builtin_users() -> Vec<u8> {
    sid(5, &[32, 545])
}

fn some_user() -> Vec<u8> {
    sid(5, &[21, 1111, 2222, 3333, 1001])
}

fn ace_bytes(kind: u8, mask: u32, principal: &[u8]) -> Vec<u8> {
    let size = (8 + principal.len()) as u16;
    let mut b = vec![kind, 0];
    b.extend_from_slice(&size.to_le_bytes());
    b.extend_from_slice(&mask.to_le_bytes());
    b.extend_from_slice(principal);
    b
}

fn acl_bytes(aces: &[Vec<u8>]) -> Vec<u8> {
    let body: Vec<u8> = aces.concat();
    let size = (8 + body.len()) as u16;
    let mut b = vec![2u8, 0];
    b.extend_from_slice(&size.to_le_bytes());
    b.extend_from_slice(&(aces.len() as u16).to_le_bytes());
    b.extend_from_slice(&[0, 0]);
    b.extend_from_slice(&body);
    b
}

fn allow(mask: u32, principal: Vec<u8>) -> Ace {
    Ace::new(AceKind::Allow, mask, principal)
}

fn deny(mask: u32, principal: Vec<u8>) -> Ace {
    Ace::new(AceKind::Deny, mask, principal)
}

#[test]
fn constants_match_the_platform_headers() {
    assert_eq!(GENERIC_ALL, windows_sys::Win32::Foundation::GENERIC_ALL);
    assert_eq!(GENERIC_READ, windows_sys::Win32::Foundation::GENERIC_READ);
    assert_eq!(GENERIC_WRITE, windows_sys::Win32::Foundation::GENERIC_WRITE);
    assert_eq!(WRITE_DAC, windows_sys::Win32::Storage::FileSystem::WRITE_DAC);
    assert_eq!(WRITE_OWNER, windows_sys::Win32::Storage::FileSystem::WRITE_OWNER);
    assert_eq!(FILE_READ_DATA, windows_sys::Win32::Storage::FileSystem::FILE_READ_DATA);
    assert_eq!(FILE_WRITE_DATA, windows_sys::Win32::Storage::FileSystem::FILE_WRITE_DATA);
    assert_eq!(WRITABLE_MASK, GENERIC_WRITE | WRITE_DAC | WRITE_OWNER | FILE_WRITE_DATA);
}

#[test]
fn format_full_control_is_f() {
    assert_eq!(format_access_mask(GENERIC_ALL), "F");
    assert_eq!(format_access_mask(GENERIC_ALL | GENERIC_READ | GENERIC_WRITE | 0x7), "F");
    assert_eq!(format_access_mask(0xFFFF_FFFF), "F");
}

#[test]
fn format_read_write_classes() {
    assert_eq!(format_access_mask(GENERIC_READ), "R");
    assert_eq!(format_access_mask(FILE_READ_DATA), "R");
    assert_eq!(format_access_mask(GENERIC_WRITE), "W");
    assert_eq!(format_access_mask(WRITE_DAC), "W");
    assert_eq!(format_access_mask(WRITE_OWNER), "W");
    assert_eq!(format_access_mask(FILE_WRITE_DATA), "W");
    assert_eq!(format_access_mask(GENERIC_READ | FILE_WRITE_DATA), "RW");
    assert_eq!(format_access_mask(0x0012_019F), "RW");
}

#[test]
fn format_unclassified_is_hex() {
    assert_eq!(format_access_mask(0), "0x0");
    assert_eq!(format_access_mask(0x0010_0000), "0x100000");
    assert_eq!(format_access_mask(0x0002_00AC), "0x200AC");
    assert_eq!(format_access_mask(0x0002_00AC), format_access_mask(0x0002_00AC));
}

#[test]
fn writable_bits() {
    assert!(is_writable_mask(GENERIC_WRITE));
    assert!(is_writable_mask(WRITE_DAC | GENERIC_READ));
    assert!(!is_writable_mask(GENERIC_READ | FILE_READ_DATA));
    assert!(!is_writable_mask(GENERIC_ALL));
}

#[test]
fn sid_text_forms() {
    assert_eq!(sid_to_string(&everyone()), "S-1-1-0");
    assert_eq!(sid_to_string(&authenticated_users()), "S-1-5-11");
    assert_eq!(sid_to_string(&builtin_users()), "S-1-5-32-545");
    assert_eq!(sid_to_string(&some_user()), "S-1-5-21-1111-2222-3333-1001");
    assert_eq!(sid_to_string(&sid(5, &[4294967295])), "S-1-5-4294967295");
    assert_eq!(sid_to_string(&sid(0x0102_0000_00AB, &[7])), "S-1-0x0102000000AB-7");
    assert_eq!(sid_to_string(&sid(16, &[])), "S-1-16");
}

#[test]
fn sid_text_of_malformed_is_empty() {
    assert_eq!(sid_to_string(&[]), "");
    assert_eq!(sid_to_string(&[1, 1, 0, 0, 0, 0, 0, 1]), "");
    let mut wrong_revision = everyone();
    wrong_revision[0] = 2;
    assert_eq!(sid_to_string(&wrong_revision), "");
    assert_eq!(sid_to_string(&sid(5, &[1; 16])), "");
}

#[test]
fn broad_principals_are_classified() {
    assert_eq!(classify_sid(&everyone()), PrincipalClass::World);
    assert_eq!(classify_sid(&authenticated_users()), PrincipalClass::AuthenticatedUsers);
    assert_eq!(classify_sid(&builtin_users()), PrincipalClass::BuiltinUsers);
    assert_eq!(classify_sid(&some_user()), PrincipalClass::Specific);
    assert_eq!(classify_sid(&sid(5, &[32, 544])), PrincipalClass::Specific);
    assert!(is_interesting_sid(&everyone()));
    assert!(!is_interesting_sid(&sid(5, &[18])));
}

#[test]
fn parse_acl_reads_entries() {
    let bytes = acl_bytes(&[
        ace_bytes(0, GENERIC_WRITE, &everyone()),
        ace_bytes(1, GENERIC_ALL, &some_user()),
        ace_bytes(9, 0x10, &[1, 2, 3, 4]),
    ]);
    let aces = parse_acl(&bytes).unwrap();
    assert_eq!(aces.len(), 3);
    assert_eq!(aces[0].kind, AceKind::Allow);
    assert_eq!(aces[0].mask, GENERIC_WRITE);
    assert_eq!(aces[0].principal, everyone());
    assert_eq!(aces[1].kind, AceKind::Deny);
    assert_eq!(aces[1].principal, some_user());
    assert_eq!(aces[2].kind, AceKind::Other(9));
    assert_eq!(aces[2].mask, 0x10);
    assert_eq!(aces[2].principal, vec![1, 2, 3, 4]);
}

#[test]
fn parse_acl_empty_list() {
    let aces = parse_acl(&acl_bytes(&[])).unwrap();
    assert!(aces.is_empty());
}

#[test]
fn parse_acl_rejects_malformed() {
    assert!(parse_acl(&[2, 0, 8, 0]).is_none());
    let good = acl_bytes(&[ace_bytes(0, GENERIC_WRITE, &everyone())]);
    assert!(parse_acl(&good[..good.len() - 1]).is_none());
    let mut too_many = good.clone();
    too_many[4] = 2;
    assert!(parse_acl(&too_many).is_none());
    let mut short_entry = good.clone();
    short_entry[10] = 4;
    assert!(parse_acl(&short_entry).is_none());
    let mut small_header = good.clone();
    small_header[2] = 4;
    assert!(parse_acl(&small_header).is_none());
}

#[test]
fn no_writable_grant_is_not_writable() {
    let aces = vec![
        allow(GENERIC_READ, everyone()),
        allow(FILE_READ_DATA, some_user()),
        deny(GENERIC_WRITE, everyone()),
    ];
    let r = analyze_dacl(Some(&aces));
    assert!(!r.writable);
    assert_eq!(r.chosen, None);
    assert_eq!(r.sid, "");
    assert_eq!(r.access, "");
}

#[test]
fn absent_dacl_is_not_writable() {
    let r = analyze_dacl(None);
    assert!(!r.writable);
    assert_eq!(r.sid, "");
    let empty: Vec<Ace> = vec![];
    assert!(!analyze_dacl(Some(&empty)).writable);
}

#[test]
fn single_grant_chosen_at_any_position() {
    for pos in 0..4 {
        let mut aces = vec![
            allow(GENERIC_READ, everyone()),
            deny(GENERIC_ALL, authenticated_users()),
            allow(FILE_READ_DATA, builtin_users()),
        ];
        aces.insert(pos, allow(FILE_WRITE_DATA | GENERIC_READ, some_user()));
        let r = analyze_dacl(Some(&aces));
        assert!(r.writable);
        assert_eq!(r.chosen, Some(pos));
        assert_eq!(r.sid, "S-1-5-21-1111-2222-3333-1001");
        assert_eq!(r.access, "RW");
    }
}

#[test]
fn broad_grant_overrides_earlier_narrow_one() {
    let aces = vec![allow(GENERIC_WRITE, some_user()), allow(WRITE_DAC, authenticated_users())];
    let r = analyze_dacl(Some(&aces));
    assert!(r.writable);
    assert_eq!(r.chosen, Some(1));
    assert_eq!(r.sid, "S-1-5-11");
    assert_eq!(r.access, "W");
}

#[test]
fn first_of_equals_wins() {
    let narrow = vec![allow(GENERIC_WRITE, some_user()), allow(GENERIC_ALL, sid(5, &[18]))];
    assert_eq!(analyze_dacl(Some(&narrow)).sid, "S-1-5-21-1111-2222-3333-1001");
    let narrow_after_broad = vec![allow(GENERIC_WRITE, everyone()), allow(GENERIC_WRITE, some_user())];
    assert_eq!(analyze_dacl(Some(&narrow_after_broad)).sid, "S-1-1-0");
}

#[test]
fn later_broad_overrides_earlier_broad() {
    let aces = vec![allow(GENERIC_WRITE, everyone()), allow(GENERIC_WRITE, builtin_users())];
    let r = analyze_dacl(Some(&aces));
    assert_eq!(r.chosen, Some(1));
    assert_eq!(r.sid, "S-1-5-32-545");
}

#[test]
fn deny_full_control_alone_is_not_writable() {
    let aces = vec![deny(GENERIC_ALL | GENERIC_WRITE | WRITE_DAC, everyone())];
    let r = analyze_dacl(Some(&aces));
    assert!(!r.writable);
    assert_eq!(r.sid, "");
}

#[test]
fn other_kinds_are_ignored() {
    let aces = vec![Ace::new(AceKind::Other(5), GENERIC_WRITE, everyone())];
    assert!(!analyze_dacl(Some(&aces)).writable);
}

#[test]
fn analysis_is_repeatable() {
    let aces = vec![
        allow(GENERIC_READ, some_user()),
        allow(WRITE_OWNER, some_user()),
        allow(GENERIC_WRITE, everyone()),
    ];
    let a = analyze_dacl(Some(&aces));
    let b = analyze_dacl(Some(&aces));
    assert_eq!(a.writable, b.writable);
    assert_eq!(a.chosen, b.chosen);
    assert_eq!(a.sid, b.sid);
    assert_eq!(a.access, b.access);
}

fn resolve(cache: &mut PrincipalCache, key: &str, lookups: &mut usize, found: Option<&str>) -> String {
    let key = key.to_string();
    match cache.cached_name(&key) {
        Some(n) => n,
        None => {
            *lookups += 1;
            cache.record(key, found.map(|s| s.to_string()))
        }
    }
}

#[test]
fn cache_looks_up_once() {
    let mut cache = PrincipalCache::new();
    let mut lookups = 0usize;
    let first = resolve(&mut cache, "S-1-1-0", &mut lookups, Some("Everyone"));
    let second = resolve(&mut cache, "S-1-1-0", &mut lookups, Some("Other"));
    assert_eq!(first, "Everyone");
    assert_eq!(second, "Everyone");
    assert_eq!(lookups, 1);
    let third = resolve(&mut cache, "S-1-5-11", &mut lookups, None);
    assert_eq!(third, "S-1-5-11");
    assert_eq!(resolve(&mut cache, "S-1-5-11", &mut lookups, Some("x")), "S-1-5-11");
    assert_eq!(lookups, 2);
}

#[test]
fn cache_record_keeps_existing_name() {
    let mut cache = PrincipalCache::new();
    assert_eq!(cache.cached_name(&"k".to_string()), None);
    assert_eq!(cache.record("k".to_string(), Some("first".to_string())), "first");
    assert_eq!(cache.record("k".to_string(), Some("second".to_string())), "first");
    assert_eq!(cache.cached_name(&"k".to_string()), Some("first".to_string()));
}

fn scan_endpoint(path: &str, acl: Option<Vec<u8>>, cache: &mut PrincipalCache) -> Option<PipeInfo> {
    let bytes = acl?;
    let aces = parse_acl(&bytes)?;
    let analysis = analyze_dacl(Some(&aces));
    let display = match analysis.chosen {
        Some(_) => match cache.cached_name(&analysis.sid) {
            Some(n) => n,
            None => cache.record(analysis.sid.clone(), None),
        },
        None => String::new(),
    };
    Some(PipeInfo::new(path, analysis, &display, String::new()))
}

#[test]
fn scenario_everyone_write() {
    let mut cache = PrincipalCache::new();
    let acl = acl_bytes(&[ace_bytes(0, GENERIC_WRITE, &everyone())]);
    let info = scan_endpoint(r"\\.\pipe\spool", Some(acl), &mut cache).unwrap();
    assert!(info.writable);
    assert!(info.access_str.contains('W'));
    assert_eq!(info.access_str, "S-1-1-0:W");
    assert_eq!(info.sid, "S-1-1-0");
    assert_eq!(info.name, r"\\.\pipe\spool");
}

#[test]
fn scenario_read_only_filtered_out() {
    let mut cache = PrincipalCache::new();
    let acl = acl_bytes(&[ace_bytes(0, GENERIC_READ, &some_user())]);
    let info = scan_endpoint(r"\\.\pipe\readonly", Some(acl), &mut cache).unwrap();
    assert!(!info.writable);
    assert_eq!(info.sid, "");
    assert_eq!(info.access_str, "");
    assert!(collect_reports(vec![Some(info)], true).is_empty());
}

#[test]
fn scenario_one_fetch_fails() {
    let mut cache = PrincipalCache::new();
    let ok = acl_bytes(&[ace_bytes(0, GENERIC_WRITE, &everyone())]);
    let fetched = vec![
        scan_endpoint(r"\\.\pipe\a", Some(ok.clone()), &mut cache),
        scan_endpoint(r"\\.\pipe\b", None, &mut cache),
        scan_endpoint(r"\\.\pipe\c", Some(ok), &mut cache),
    ];
    let reports = collect_reports(fetched, false);
    assert_eq!(reports.len(), 2);
    assert_eq!(reports[0].name, r"\\.\pipe\a");
    assert_eq!(reports[1].name, r"\\.\pipe\c");
    assert_eq!(scan_exit_code(true, reports.len()), 0);
}

#[test]
fn scenario_no_endpoints() {
    let reports = collect_reports(vec![], false);
    assert!(reports.is_empty());
    assert_eq!(scan_exit_code(true, reports.len()), 2);
}

#[test]
fn listing_failure_exit_code() {
    assert_eq!(scan_exit_code(false, 0), 1);
    assert_eq!(scan_exit_code(true, 3), 0);
}
