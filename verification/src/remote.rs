//! Remote file systems: FTP credentials, reading a line of an FTP directory
//! listing, and turning SFTP file attributes into virtual entries.

use vstd::prelude::*;
use crate::text;
use crate::commands;
use crate::vfs::{VfsEntry, VfsEntryType, VfsPath, VfsPathView};

verus! {

/// What an FTP login needs.
#[derive(Debug)]
pub struct FtpCredentials {
    pub username: String,
    pub password: String,
    pub use_tls: bool,
}

impl Clone for FtpCredentials {
    fn clone(&self) -> (r: Self)
        ensures
            r == *self,
    {
        FtpCredentials { username: self.username.clone(), password: self.password.clone(), use_tls: self.use_tls }
    }
}

/// The words of a text: its maximal runs of characters that are not white
/// space, as `str::split_whitespace` gives them.
pub open spec fn words(s: Seq<char>) -> Seq<Seq<char>>
    decreases s.len(),
{
    if s.len() == 0 {
        Seq::empty()
    } else if commands::is_space(s[0]) {
        words(s.drop_first())
    } else {
        let w = commands::word_prefix(s);
        if 0 < w.len() <= s.len() {
            seq![w] + words(s.subrange(w.len() as int, s.len() as int))
        } else {
            seq![w]
        }
    }
}

/// Whether every character is an ASCII digit.
pub open spec fn all_digits(s: Seq<char>) -> bool {
    forall|i: int| 0 <= i < s.len() ==> '0' <= #[trigger] s[i] <= '9'
}

/// The number an ASCII digit string denotes.
pub open spec fn digits_value(s: Seq<char>) -> nat
    decreases s.len(),
{
    if s.len() == 0 {
        0
    } else {
        digits_value(s.drop_last()) * 10 + ((s.last() as u32) - ('0' as u32)) as nat
    }
}

/// What `u64::from_str` gives: an optional `+` and at least one digit,
/// denoting a number that fits.
pub open spec fn parse_u64(s: Seq<char>) -> Option<u64> {
    let d = if s.len() > 0 && s[0] == '+' {
        s.drop_first()
    } else {
        s
    };
    if d.len() > 0 && all_digits(d) && digits_value(d) <= u64::MAX {
        Some(digits_value(d) as u64)
    } else {
        None
    }
}

/// Parses an unsigned number as `u64::from_str` does.
pub fn parse_number(s: &str) -> (r: Option<u64>)
    ensures
        r == parse_u64(s@),
{
    let cs = text::chars_of(s);
    let start: usize = if cs.len() > 0 && cs[0] == '+' { 1 } else { 0 };
    let ghost d = if cs@.len() > 0 && cs@[0] == '+' { cs@.drop_first() } else { cs@ };
    assert(d =~= cs@.subrange(start as int, cs@.len() as int));
    if start >= cs.len() {
        return None;
    }
    let mut value: u64 = 0;
    let mut i: usize = start;
    while i < cs.len()
        invariant
            cs@ == s@,
            start <= i <= cs@.len(),
            d == cs@.subrange(start as int, cs@.len() as int),
            d == (if cs@.len() > 0 && cs@[0] == '+' { cs@.drop_first() } else { cs@ }),
            all_digits(cs@.subrange(start as int, i as int)),
            value == digits_value(cs@.subrange(start as int, i as int)),
        decreases cs@.len() - i,
    {
        let c = cs[i];
        assert(cs@.subrange(start as int, i + 1).drop_last() =~= cs@.subrange(start as int, i as int));
        if c < '0' || c > '9' {
            assert(d[i - start] == c);
            assert(!all_digits(d));
            assert(cs@ == s@);
            assert(d == (if s@.len() > 0 && s@[0] == '+' { s@.drop_first() } else { s@ }));
            assert(parse_u64(s@) is None);
            return None;
        }
        let digit = (c as u32 - '0' as u32) as u64;
        assert(digits_value(cs@.subrange(start as int, i + 1)) == value * 10 + digit);
        assert(all_digits(cs@.subrange(start as int, i + 1)));
        match value.checked_mul(10) {
            Some(v) => match v.checked_add(digit) {
                Some(w) => {
                    value = w;
                },
                None => {
                    proof {
                        lemma_digits_value_grows(d, i - start + 1);
                        assert(d.subrange(0, i - start + 1) =~= cs@.subrange(start as int, i + 1));
                    }
                    return None;
                },
            },
            None => {
                proof {
                    lemma_digits_value_grows(d, i - start + 1);
                    assert(d.subrange(0, i - start + 1) =~= cs@.subrange(start as int, i + 1));
                }
                return None;
            },
        }
        i = i + 1;
    }
    assert(cs@.subrange(start as int, cs@.len() as int) =~= d);
    Some(value)
}

proof fn lemma_digits_value_grows(d: Seq<char>, n: int)
    requires
        0 <= n <= d.len(),
    ensures
        digits_value(d.subrange(0, n)) <= digits_value(d) || !all_digits(d),
    decreases d.len() - n,
{
    if n < d.len() && all_digits(d) {
        lemma_digits_value_grows(d, n + 1);
        assert(d.subrange(0, n + 1).drop_last() =~= d.subrange(0, n));
        assert('0' <= d[n] <= '9');
    } else if n == d.len() {
        assert(d.subrange(0, n) =~= d);
    }
}

/// Words joined with single spaces.
pub open spec fn spaced(ws: Seq<Seq<char>>) -> Seq<char> {
    commands::join_spaced(ws)
}

/// The entry a line of a Unix-style FTP listing describes (permissions,
/// links, owner, group, size, three date fields, name), under an FTP
/// directory; nothing for lines with fewer than nine words or a directory
/// that is not on FTP. The name keeps single spaces between its words.
pub open spec fn listing_entry(line: Seq<char>, base: VfsPathView) -> Option<(Seq<char>, VfsPathView, VfsEntryType, u64, Seq<char>)> {
    let ws = words(line);
    if ws.len() < 9 {
        None
    } else {
        match base {
            VfsPathView::Ftp { host, port, username, path } => {
                let name = spaced(ws.subrange(8, ws.len() as int));
                let full = if path.len() > 0 && path.last() == '/' {
                    path + name
                } else {
                    path + seq!['/'] + name
                };
                let perms = ws[0];
                let kind = if perms.len() > 0 && perms[0] == 'd' {
                    VfsEntryType::Directory
                } else if perms.len() > 0 && perms[0] == 'l' {
                    VfsEntryType::Symlink
                } else {
                    VfsEntryType::File
                };
                let size = match parse_u64(ws[4]) {
                    Some(n) => n,
                    None => 0,
                };
                Some((name, VfsPathView::Ftp { host, port, username, path: full }, kind, size, perms.subrange(1, 10)))
            },
            _ => None,
        }
    }
}

/// The words of a text.
pub(crate) fn split_words(s: &str) -> (r: Vec<String>)
    ensures
        crate::cache::strings_view(r@) == words(s@),
{
    let cs = text::chars_of(s);
    let mut r: Vec<String> = Vec::new();
    let mut i: usize = 0;
    assert(cs@.subrange(0, cs@.len() as int) =~= cs@);
    assert(crate::cache::strings_view(r@) + words(cs@) =~= words(cs@));
    while i < cs.len()
        invariant
            cs@ == s@,
            i <= cs@.len(),
            crate::cache::strings_view(r@) + words(cs@.subrange(i as int, cs@.len() as int)) == words(s@),
        decreases cs@.len() - i,
    {
        let ghost rest = cs@.subrange(i as int, cs@.len() as int);
        if commands::space_char(cs[i]) {
            assert(rest.drop_first() =~= cs@.subrange(i + 1, cs@.len() as int));
            i = i + 1;
        } else {
            let start = i;
            let mut w: Vec<char> = Vec::new();
            while i < cs.len() && !commands::space_char(cs[i])
                invariant
                    start <= i <= cs@.len(),
                    w@ + commands::word_prefix(cs@.subrange(i as int, cs@.len() as int)) == commands::word_prefix(rest),
                    rest == cs@.subrange(start as int, cs@.len() as int),
                    w@ == cs@.subrange(start as int, i as int),
                decreases cs@.len() - i,
            {
                let ghost r2 = cs@.subrange(i as int, cs@.len() as int);
                assert(r2.drop_first() =~= cs@.subrange(i + 1, cs@.len() as int));
                let ghost before = w@;
                w.push(cs[i]);
                assert(before + (seq![cs@[i as int]] + commands::word_prefix(r2.drop_first())) =~= w@
                    + commands::word_prefix(r2.drop_first()));
                i = i + 1;
                assert(w@ =~= cs@.subrange(start as int, i as int));
            }
            assert(commands::word_prefix(cs@.subrange(i as int, cs@.len() as int)) =~= Seq::<char>::empty());
            assert(w@ + Seq::<char>::empty() =~= w@);
            let word = text::string_from_chars(w.as_slice());
            assert(rest.subrange(w@.len() as int, rest.len() as int) =~= cs@.subrange(i as int, cs@.len() as int));
            let ghost before = crate::cache::strings_view(r@);
            r.push(word);
            assert(crate::cache::strings_view(r@) =~= before.push(w@));
            assert(before + (seq![w@] + words(cs@.subrange(i as int, cs@.len() as int))) =~= crate::cache::strings_view(r@)
                + words(cs@.subrange(i as int, cs@.len() as int)));
        }
    }
    assert(cs@.subrange(i as int, cs@.len() as int) =~= Seq::<char>::empty());
    assert(crate::cache::strings_view(r@) + Seq::<Seq<char>>::empty() =~= crate::cache::strings_view(r@));
    r
}

/// Words from a position on, joined with single spaces.
fn join_from(ws: &Vec<String>, from: usize) -> (r: String)
    requires
        from < ws@.len(),
    ensures
        r@ == spaced(crate::cache::strings_view(ws@).subrange(from as int, ws@.len() as int)),
{
    let ghost v = crate::cache::strings_view(ws@);
    let n = ws.len();
    let mut r = ws[from].clone();
    assert(v.subrange(from as int, from + 1) =~= seq![v[from as int]]);
    let mut i: usize = from + 1;
    while i < ws.len()
        invariant
            v == crate::cache::strings_view(ws@),
            from < i <= ws@.len(),
            r@ == spaced(v.subrange(from as int, i as int)),
        decreases ws@.len() - i,
    {
        assert(v.subrange(from as int, i + 1).drop_last() =~= v.subrange(from as int, i as int));
        let ghost before = r@;
        text::push_char(&mut r, ' ');
        r.append(ws[i].as_str());
        assert(r@ =~= before + seq![' '] + v[i as int]);
        i = i + 1;
    }
    r
}

/// Reads a line of an FTP listing into an entry under an FTP directory,
/// stamped with the given time (nanoseconds since the Unix epoch).
pub fn parse_list_entry(line: &str, base_path: &VfsPath, now: u128) -> (r: Option<VfsEntry>)
    requires
        words(line@).len() >= 9 ==> words(line@)[0].len() >= 10,
    ensures
        match listing_entry(line@, base_path@) {
            Some(e) => r matches Some(v) && v.name@ == e.0 && v.path@ == e.1 && v.entry_type == e.2
                && v.size == e.3 && v.permissions@ == e.4 && v.modified == now && v.compressed_size is None,
            None => r is None,
        },
{
    let parts = split_words(line);
    if parts.len() < 9 {
        return None;
    }
    let ghost ws = words(line@);
    let (host, port, username, base) = match base_path {
        VfsPath::Ftp { host, port, username, path } => (host, *port, username, path),
        _ => return None,
    };
    let name = join_from(&parts, 8);
    let pc = text::chars_of(parts[0].as_str());
    assert(pc@ == ws[0]);
    let entry_type = if pc.len() > 0 && pc[0] == 'd' {
        VfsEntryType::Directory
    } else if pc.len() > 0 && pc[0] == 'l' {
        VfsEntryType::Symlink
    } else {
        VfsEntryType::File
    };
    let size = match parse_number(parts[4].as_str()) {
        Some(n) => n,
        None => 0,
    };
    let bc = text::chars_of(base.as_str());
    let mut full = base.clone();
    if !(bc.len() > 0 && bc[bc.len() - 1] == '/') {
        text::push_char(&mut full, '/');
    }
    full.append(name.as_str());
    let perm_chars = vstd::slice::slice_subrange(pc.as_slice(), 1, 10);
    let permissions = text::string_from_chars(perm_chars);
    let ghost e = listing_entry(line@, base_path@);
    assert(crate::cache::strings_view(parts@) == ws);
    assert(e is Some);
    assert(name@ == e.unwrap().0);
    assert(entry_type == e.unwrap().2);
    assert(size == e.unwrap().3);
    assert(permissions@ == e.unwrap().4);
    assert(full@ == (match e.unwrap().1 { VfsPathView::Ftp { path, .. } => path, _ => Seq::empty() }));
    Some(VfsEntry {
        name,
        path: VfsPath::Ftp { host: host.clone(), port, username: username.clone(), path: full },
        entry_type,
        size,
        modified: now,
        permissions,
        compressed_size: None,
    })
}

/// The `rwx` text of a three-bit permission group.
pub open spec fn rwx(mode: u32) -> Seq<char> {
    seq![
        if (mode / 4) % 2 == 1 { 'r' } else { '-' },
        if (mode / 2) % 2 == 1 { 'w' } else { '-' },
        if mode % 2 == 1 { 'x' } else { '-' },
    ]
}

fn format_rwx(mode: u32) -> (r: String)
    ensures
        r@ == rwx(mode),
{
    let mut s = String::new();
    text::push_char(&mut s, if (mode / 4) % 2 == 1 { 'r' } else { '-' });
    text::push_char(&mut s, if (mode / 2) % 2 == 1 { 'w' } else { '-' });
    text::push_char(&mut s, if mode % 2 == 1 { 'x' } else { '-' });
    assert(s@ =~= rwx(mode));
    s
}

/// The attributes an SFTP server reports for a file.
#[derive(Debug, Clone, Copy, PartialEq, Eq, Structural)]
pub struct FileStat {
    pub is_dir: bool,
    pub is_file: bool,
    pub size: Option<u64>,
    pub perm: Option<u32>,
    /// Seconds since the Unix epoch.
    pub mtime: Option<u64>,
}

/// The entry for a file an SFTP server reports: a directory, a file or else a
/// link; size and time 0 where unknown; owner, group and other permissions as
/// `rwx` text.
pub fn convert_file_stat(stat: FileStat, name: String, path: VfsPath) -> (r: VfsEntry)
    ensures
        r.name == name,
        r.path == path,
        r.entry_type == (if stat.is_dir {
            VfsEntryType::Directory
        } else if stat.is_file {
            VfsEntryType::File
        } else {
            VfsEntryType::Symlink
        }),
        r.size == (match stat.size {
            Some(n) => n,
            None => 0,
        }),
        r.modified == (match stat.mtime {
            Some(t) => t as int,
            None => 0,
        }) * 1_000_000_000,
        ({
            let p = match stat.perm {
                Some(p) => p,
                None => 0,
            };
            r.permissions@ == rwx((p / 64) % 8) + rwx((p / 8) % 8) + rwx(p % 8)
        }),
        r.compressed_size is None,
{
    let entry_type = if stat.is_dir {
        VfsEntryType::Directory
    } else if stat.is_file {
        VfsEntryType::File
    } else {
        VfsEntryType::Symlink
    };
    let secs: u128 = match stat.mtime {
        Some(t) => t as u128,
        None => 0,
    };
    let p = match stat.perm {
        Some(p) => p,
        None => 0,
    };
    let mut permissions = format_rwx((p / 64) % 8);
    permissions.append(format_rwx((p / 8) % 8).as_str());
    permissions.append(format_rwx(p % 8).as_str());
    VfsEntry {
        name,
        path,
        entry_type,
        size: match stat.size {
            Some(n) => n,
            None => 0,
        },
        modified: secs * 1_000_000_000,
        permissions,
        compressed_size: None,
    }
}

proof fn lemma_digit_value(d: nat)
    requires
        d < 10,
    ensures
        '0' <= text::digit_char(d) <= '9',
        (text::digit_char(d) as u32) - ('0' as u32) == d,
{
}

proof fn lemma_decimal_digits(n: nat)
    ensures
        text::decimal(n).len() > 0,
        all_digits(text::decimal(n)),
        digits_value(text::decimal(n)) == n,
    decreases n,
{
    if n < 10 {
        lemma_digit_value(n);
        let s = text::decimal(n);
        assert(s.drop_last() =~= Seq::<char>::empty());
        assert(digits_value(s.drop_last()) == 0);
        assert(s.last() == text::digit_char(n));
    } else {
        lemma_decimal_digits(n / 10);
        lemma_digit_value(n % 10);
        let s = text::decimal(n);
        assert(s.drop_last() =~= text::decimal(n / 10));
        assert(s.last() == text::digit_char(n % 10));
        assert(digits_value(s) == digits_value(s.drop_last()) * 10 + ((s.last() as u32) - ('0' as u32)) as nat);
        assert((n / 10) * 10 + n % 10 == n);
        assert forall|i: int| 0 <= i < s.len() implies '0' <= #[trigger] s[i] <= '9' by {
            if i < s.len() - 1 {
                assert(s[i] == text::decimal(n / 10)[i]);
            }
        }
    }
}

/// A number written in decimal reads back as the same number.
pub proof fn law_decimal_reads_back(n: u64)
    ensures
        parse_u64(text::decimal(n as nat)) == Some(n),
{
    lemma_decimal_digits(n as nat);
    let s = text::decimal(n as nat);
    assert('0' <= s[0] <= '9');
}

} // verus!
