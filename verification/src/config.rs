//! The dock's configuration data: named launcher shortcuts grouped into
//! ordered categories, read once at startup, plus the pure pieces of the
//! pinned-item discovery that feeds extra shortcuts into the sequence.
//!
//! The surrounding host reads the configuration file and enumerates the
//! platform's pinned items; this module owns the data and the rules: how
//! discovered items merge into the configuration, how the flat icon
//! sequence (and with it each icon's stable index) is derived, which
//! directory entries are shortcut files, and how a resolved link target
//! buffer is trimmed.

use vstd::prelude::*;
use vstd::string::StringExecFns;

verus! {

/// One launcher entry: a display name and the path to start.
#[derive(Debug)]
pub struct Shortcut {
    pub name: String,
    pub path: String,
}

/// An ordered group of shortcuts under one name.
#[derive(Debug)]
pub struct Category {
    pub name: String,
    pub shortcuts: Vec<Shortcut>,
}

/// The whole configuration: an ordered list of categories.
#[derive(Debug)]
pub struct Config {
    pub categories: Vec<Category>,
}

impl Clone for Shortcut {
    /// A clone is the same shortcut, value for value.
    fn clone(&self) -> (r: Self)
        ensures
            r == *self,
    {
        Shortcut { name: self.name.clone(), path: self.path.clone() }
    }
}

impl Clone for Category {
    /// A clone carries the same name and the same shortcut values.
    fn clone(&self) -> (r: Self)
        ensures
            r.name@ == self.name@,
            r.shortcuts@ == self.shortcuts@,
    {
        let mut shortcuts: Vec<Shortcut> = Vec::new();
        let n = self.shortcuts.len();
        for k in 0..n
            invariant
                n == self.shortcuts@.len(),
                shortcuts@.len() == k,
                forall|i: int| 0 <= i < k ==> #[trigger] shortcuts@[i] == self.shortcuts@[i],
        {
            shortcuts.push(self.shortcuts[k].clone());
        }
        proof {
            assert(shortcuts@ =~= self.shortcuts@);
        }
        Category { name: self.name.clone(), shortcuts }
    }
}

impl Clone for Config {
    /// A clone carries the same categories: same names, same shortcut
    /// values, in the same order.
    fn clone(&self) -> (r: Self)
        ensures
            r.categories@.len() == self.categories@.len(),
            forall|i: int| 0 <= i < self.categories@.len()
                ==> (#[trigger] r.categories@[i]).name@ == self.categories@[i].name@
                    && r.categories@[i].shortcuts@ == self.categories@[i].shortcuts@,
    {
        let mut categories: Vec<Category> = Vec::new();
        let n = self.categories.len();
        for k in 0..n
            invariant
                n == self.categories@.len(),
                categories@.len() == k,
                forall|i: int| 0 <= i < k
                    ==> (#[trigger] categories@[i]).name@ == self.categories@[i].name@
                        && categories@[i].shortcuts@ == self.categories@[i].shortcuts@,
        {
            categories.push(self.categories[k].clone());
        }
        Config { categories }
    }
}

/// Merge the discovered pinned items into a loaded configuration: when
/// any were found they form one extra category named "Pinned" appended
/// after the configured ones; when none were found the configuration is
/// returned unchanged.
pub fn with_pinned(config: Config, pinned: Vec<Shortcut>) -> (r: Config)
    ensures
        pinned@.len() == 0 ==> r.categories@ == config.categories@,
        pinned@.len() > 0 ==> {
            &&& r.categories@.len() == config.categories@.len() + 1
            &&& r.categories@.subrange(0, config.categories@.len() as int) == config.categories@
            &&& r.categories@.last().name@ == "Pinned"@
            &&& r.categories@.last().shortcuts@ == pinned@
        },
{
    let mut config = config;
    if pinned.len() > 0 {
        let ghost before = config.categories@;
        config.categories.push(Category { name: String::from_str("Pinned"), shortcuts: pinned });
        proof {
            assert(config.categories@.subrange(0, before.len() as int) =~= before);
        }
    }
    config
}

/// The flat shortcut sequence of a configuration: every category's
/// shortcuts in category order. The position of a shortcut in this
/// sequence is the stable index its icon keeps for the dock's lifetime.
pub open spec fn spec_flatten(cats: Seq<Category>) -> Seq<Shortcut>
    decreases cats.len(),
{
    if cats.len() == 0 {
        Seq::empty()
    } else {
        spec_flatten(cats.drop_last()) + cats.last().shortcuts@
    }
}

/// Flatten the configuration into the ordered icon source sequence.
pub fn flatten_shortcuts(config: &Config) -> (r: Vec<Shortcut>)
    ensures
        r@ == spec_flatten(config.categories@),
{
    let mut out: Vec<Shortcut> = Vec::new();
    let ncats = config.categories.len();
    for c in 0..ncats
        invariant
            ncats == config.categories@.len(),
            out@ == spec_flatten(config.categories@.subrange(0, c as int)),
    {
        let ns = config.categories[c].shortcuts.len();
        let ghost out_before = out@;
        for j in 0..ns
            invariant
                ncats == config.categories@.len(),
                c < ncats,
                ns == config.categories@[c as int].shortcuts@.len(),
                out@ == out_before + config.categories@[c as int].shortcuts@.subrange(0, j as int),
        {
            out.push(config.categories[c].shortcuts[j].clone());
            proof {
                assert(config.categories@[c as int].shortcuts@.subrange(0, j + 1)
                    =~= config.categories@[c as int].shortcuts@.subrange(0, j as int)
                        + seq![config.categories@[c as int].shortcuts@[j as int]]);
            }
        }
        proof {
            assert(config.categories@[c as int].shortcuts@.subrange(0, ns as int)
                =~= config.categories@[c as int].shortcuts@);
            assert(config.categories@.subrange(0, c + 1).drop_last()
                =~= config.categories@.subrange(0, c as int));
            assert(config.categories@.subrange(0, c + 1).last()
                == config.categories@[c as int]);
        }
    }
    proof {
        assert(config.categories@.subrange(0, ncats as int) =~= config.categories@);
    }
    out
}

/// Whether a file name (as bytes) ends in the shortcut-file suffix
/// `.lnk`.
pub open spec fn spec_is_link_name(name: Seq<u8>) -> bool {
    name.len() >= 4 && name.subrange(name.len() - 4, name.len() as int)
        == seq![46u8, 108u8, 110u8, 107u8]
}

/// Split a directory entry's file name (as bytes): for a shortcut file
/// (`stem.lnk`) return the stem, for anything else return `None`.
pub fn split_link_name(name: &Vec<u8>) -> (r: Option<Vec<u8>>)
    ensures
        r is Some <==> spec_is_link_name(name@),
        r matches Some(stem) ==> stem@ == name@.subrange(0, name@.len() - 4),
{
    let n = name.len();
    if n < 4 {
        return None;
    }
    if !(name[n - 4] == 46 && name[n - 3] == 108 && name[n - 2] == 110 && name[n - 1] == 107) {
        proof {
            assert(name@.subrange(n - 4, n as int) != seq![46u8, 108u8, 110u8, 107u8]) by {
                if name@.subrange(n - 4, n as int) == seq![46u8, 108u8, 110u8, 107u8] {
                    assert(name@.subrange(n - 4, n as int)[0] == 46u8);
                    assert(name@.subrange(n - 4, n as int)[1] == 108u8);
                    assert(name@.subrange(n - 4, n as int)[2] == 110u8);
                    assert(name@.subrange(n - 4, n as int)[3] == 107u8);
                }
            }
        }
        return None;
    }
    proof {
        assert(name@.subrange(n - 4, n as int) =~= seq![46u8, 108u8, 110u8, 107u8]);
    }
    let mut stem: Vec<u8> = Vec::new();
    for k in 0..n - 4
        invariant
            n == name@.len(),
            n >= 4,
            stem@.len() == k,
            forall|i: int| 0 <= i < k ==> #[trigger] stem@[i] == name@[i],
    {
        stem.push(name[k]);
    }
    proof {
        assert(stem@ =~= name@.subrange(0, name@.len() - 4));
    }
    Some(stem)
}

/// The UTF-16 code units of one character: the code point itself below
/// `0x10000`, a surrogate pair above.
pub open spec fn spec_utf16_unit(c: char) -> Seq<u16> {
    let v = c as u32;
    if v < 0x10000 {
        seq![v as u16]
    } else {
        seq![
            (0xD800 + (v - 0x10000) / 0x400) as u16,
            (0xDC00 + (v - 0x10000) % 0x400) as u16,
        ]
    }
}

/// The UTF-16 encoding of a character sequence.
pub open spec fn spec_utf16(chars: Seq<char>) -> Seq<u16>
    decreases chars.len(),
{
    if chars.len() == 0 {
        Seq::empty()
    } else {
        spec_utf16(chars.drop_last()) + spec_utf16_unit(chars.last())
    }
}

/// Encode a path as a NUL-terminated UTF-16 string, the form the
/// platform's wide-string shell interfaces take.
pub fn to_wide(chars: &Vec<char>) -> (r: Vec<u16>)
    ensures
        r@ == spec_utf16(chars@) + seq![0u16],
{
    let n = chars.len();
    let mut out: Vec<u16> = Vec::new();
    for k in 0..n
        invariant
            n == chars@.len(),
            out@ == spec_utf16(chars@.subrange(0, k as int)),
    {
        let v = chars[k] as u32;
        if v < 0x10000 {
            out.push(v as u16);
        } else {
            out.push((0xD800 + (v - 0x10000) / 0x400) as u16);
            out.push((0xDC00 + (v - 0x10000) % 0x400) as u16);
        }
        proof {
            assert(chars@.subrange(0, k + 1).drop_last() =~= chars@.subrange(0, k as int));
        }
    }
    proof {
        assert(chars@.subrange(0, n as int) =~= chars@);
    }
    out.push(0);
    out
}

/// A trimming of a UTF-16 buffer: `a .. e` is the span left when the
/// zero padding on both ends is stripped.
pub open spec fn spec_trimmed_span(b: Seq<u16>, a: int, e: int) -> bool {
    &&& 0 <= a <= e <= b.len()
    &&& forall|i: int| 0 <= i < a ==> b[i] == 0
    &&& forall|i: int| e <= i < b.len() ==> b[i] == 0
    &&& (a < e ==> b[a] != 0 && b[e - 1] != 0)
}

/// Trim the zero padding from a resolved link-target buffer (fixed-size,
/// zero-filled on both sides by the resolver). Returns the non-empty
/// payload span, or `None` when the buffer holds nothing but zeros —
/// a link without a usable target.
pub fn link_buffer_target(buf: &Vec<u16>) -> (r: Option<Vec<u16>>)
    ensures
        r is None <==> (forall|i: int| 0 <= i < buf@.len() ==> buf@[i] == 0),
        r matches Some(t) ==> exists|a: int, e: int|
            #[trigger] spec_trimmed_span(buf@, a, e) && a < e && t@ == buf@.subrange(a, e),
{
    let n = buf.len();
    let mut first: usize = 0;
    while first < n && buf[first] == 0
        invariant
            n == buf@.len(),
            first <= n,
            forall|i: int| 0 <= i < first ==> buf@[i] == 0,
        decreases n - first,
    {
        first = first + 1;
    }
    if first == n {
        return None;
    }
    let mut last: usize = n;
    while last > first && buf[last - 1] == 0
        invariant
            n == buf@.len(),
            first <= last <= n,
            forall|i: int| last <= i < n ==> buf@[i] == 0,
        decreases last,
    {
        last = last - 1;
    }
    // `buf[first]` is non-zero, so the span cannot shrink to empty.
    proof {
        assert(buf@[first as int] != 0);
        assert(last > first);
    }
    let mut t: Vec<u16> = Vec::new();
    for k in first..last
        invariant
            n == buf@.len(),
            first < last <= n,
            t@.len() == k - first,
            forall|j: int| 0 <= j < k - first ==> #[trigger] t@[j] == buf@[first + j],
    {
        t.push(buf[k]);
    }
    proof {
        assert(t@ =~= buf@.subrange(first as int, last as int));
        assert(spec_trimmed_span(buf@, first as int, last as int));
    }
    Some(t)
}

} // verus!
