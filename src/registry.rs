//! How extension settings and numbered lists are written to the Windows registry.

use vstd::prelude::*;

verus! {

/// An extension setting as the Windows registry writer sees it: the JSON
/// value's kind and, where it is written, its content.
pub enum SettingValue {
    Bool(bool),
    /// A number that is a non-negative integer.
    Unsigned(u64),
    /// Any other number.
    OtherNumber,
    Text(String),
    /// An array; each element is its text when it is a string.
    List(Vec<Option<String>>),
    /// Null or an object.
    Other,
}

/// One registry write of an extension's settings.
pub enum RegistryWrite {
    /// A DWORD value.
    Dword { name: String, value: u32 },
    /// A REG_SZ value.
    Text { name: String, value: String },
    /// A subkey, wiped first, holding numbered REG_SZ values (`1`, `2`, …).
    List { subkey: String, entries: Vec<(usize, String)> },
}

/// The numbered entries of an array setting: the string at position `i`
/// becomes value `i + 1`; other elements are skipped, keeping the numbering.
pub open spec fn numbered(list: Seq<Option<String>>) -> Seq<(usize, Seq<char>)>
    decreases list.len(),
{
    if list.len() == 0 {
        seq![]
    } else {
        let rest = numbered(list.drop_last());
        match list.last() {
            Some(s) => rest.push((list.len() as usize, s@)),
            None => rest,
        }
    }
}

/// The spec form of a registry write.
pub enum RegistryWriteView {
    Dword(Seq<char>, u32),
    Text(Seq<char>, Seq<char>),
    List(Seq<char>, Seq<(usize, Seq<char>)>),
}

/// The spec form of a registry write.
pub open spec fn write_view(w: RegistryWrite) -> RegistryWriteView {
    match w {
        RegistryWrite::Dword { name, value } => RegistryWriteView::Dword(name@, value),
        RegistryWrite::Text { name, value } => RegistryWriteView::Text(name@, value@),
        RegistryWrite::List { subkey, entries } => RegistryWriteView::List(
            subkey@, entries@.map_values(|e: (usize, String)| (e.0, e.1@))),
    }
}

/// How one setting is written: booleans as DWORD 0/1, non-negative integers
/// as DWORD (low 32 bits), strings as REG_SZ, arrays as a numbered subkey;
/// anything else is not written.
pub open spec fn setting_writes(name: Seq<char>, v: SettingValue) -> Seq<RegistryWriteView> {
    match v {
        SettingValue::Bool(b) => seq![RegistryWriteView::Dword(name, if b { 1u32 } else { 0u32 })],
        SettingValue::Unsigned(n) => seq![RegistryWriteView::Dword(name, n as u32)],
        SettingValue::Text(s) => seq![RegistryWriteView::Text(name, s@)],
        SettingValue::List(l) => seq![RegistryWriteView::List(name, numbered(l@))],
        _ => seq![],
    }
}

/// How a list of settings is written, in order.
pub open spec fn settings_writes(settings: Seq<(String, SettingValue)>) -> Seq<RegistryWriteView>
    decreases settings.len(),
{
    if settings.len() == 0 {
        seq![]
    } else {
        settings_writes(settings.drop_last()) + setting_writes(settings.last().0@, settings.last().1)
    }
}

/// The registry key holding an extension's settings:
/// `<browser key>\3rdparty\extensions\<id>\policy`.
pub fn extension_policy_key(browser_policy_key: &str, extension_id: &str) -> (r: String)
    ensures
        r@ == browser_policy_key@ + "\\3rdparty\\extensions\\"@ + extension_id@ + "\\policy"@,
{
    let mut s = browser_policy_key.to_owned();
    s.append("\\3rdparty\\extensions\\");
    s.append(extension_id);
    s.append("\\policy");
    s
}

fn numbered_entries(list: &Vec<Option<String>>) -> (r: Vec<(usize, String)>)
    ensures
        r@.map_values(|e: (usize, String)| (e.0, e.1@)) == numbered(list@),
{
    let mut out: Vec<(usize, String)> = Vec::new();
    let mut i: usize = 0;
    while i < list.len()
        invariant
            i <= list@.len(),
            out@.map_values(|e: (usize, String)| (e.0, e.1@)) == numbered(list@.subrange(0, i as int)),
        decreases list@.len() - i,
    {
        let ghost prefix = list@.subrange(0, i + 1);
        assert(prefix.drop_last() =~= list@.subrange(0, i as int));
        let ghost before = out@;
        match &list[i] {
            Some(s) => {
                out.push((i + 1, s.clone()));
                assert(out@.map_values(|e: (usize, String)| (e.0, e.1@))
                    =~= before.map_values(|e: (usize, String)| (e.0, e.1@)).push(((i + 1) as usize, s@)));
            },
            None => {},
        }
        i = i + 1;
    }
    assert(list@.subrange(0, list@.len() as int) =~= list@);
    out
}

/// Numbers a forced-install list for the registry: entry `i` is written as
/// value `i + 1`.
pub fn numbered_values(list: &Vec<String>) -> (r: Vec<(usize, String)>)
    requires
        list@.len() < usize::MAX,
    ensures
        r@.len() == list@.len(),
        forall|i: int| 0 <= i < list@.len() ==> (#[trigger] r@[i]).0 == i + 1 && r@[i].1 == list@[i],
{
    let mut out: Vec<(usize, String)> = Vec::new();
    let mut i: usize = 0;
    while i < list.len()
        invariant
            i <= list@.len(),
            list@.len() < usize::MAX,
            out@.len() == i,
            forall|j: int| 0 <= j < i ==> (#[trigger] out@[j]).0 == j + 1 && out@[j].1 == list@[j],
        decreases list@.len() - i,
    {
        out.push((i + 1, list[i].clone()));
        i = i + 1;
    }
    out
}

/// The registry writes for an extension's settings, in order.
pub fn registry_writes(settings: &Vec<(String, SettingValue)>) -> (r: Vec<RegistryWrite>)
    ensures
        r@.map_values(|w: RegistryWrite| write_view(w)) == settings_writes(settings@),
{
    let mut out: Vec<RegistryWrite> = Vec::new();
    let mut i: usize = 0;
    while i < settings.len()
        invariant
            i <= settings@.len(),
            out@.map_values(|w: RegistryWrite| write_view(w)) == settings_writes(settings@.subrange(0, i as int)),
        decreases settings@.len() - i,
    {
        let ghost prefix = settings@.subrange(0, i + 1);
        assert(prefix.drop_last() =~= settings@.subrange(0, i as int));
        let name = &settings[i].0;
        match &settings[i].1 {
            SettingValue::Bool(b) => {
                out.push(RegistryWrite::Dword { name: name.clone(), value: if *b { 1 } else { 0 } });
            },
            SettingValue::Unsigned(n) => {
                out.push(RegistryWrite::Dword { name: name.clone(), value: *n as u32 });
            },
            SettingValue::Text(s) => {
                out.push(RegistryWrite::Text { name: name.clone(), value: s.clone() });
            },
            SettingValue::List(l) => {
                out.push(RegistryWrite::List { subkey: name.clone(), entries: numbered_entries(l) });
            },
            _ => {},
        }
        assert(out@.map_values(|w: RegistryWrite| write_view(w)) =~= settings_writes(prefix));
        i = i + 1;
    }
    assert(settings@.subrange(0, settings@.len() as int) =~= settings@);
    out
}

} // verus!
