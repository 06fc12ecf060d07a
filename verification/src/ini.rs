//! The INI reader of the `configparser` crate, as the configuration code
//! uses it: the calls made into the crate, with what each one is trusted to do.

use configparser::ini::Ini;
use vstd::prelude::*;

verus! {

#[verifier::external_type_specification]
#[verifier::external_body]
pub struct ExIni(Ini);

/// The entries of an INI as a map: for each (section, key) pair its value,
/// or `None` for a key written without a value.
pub type IniEntries = Map<(Seq<char>, Seq<char>), Option<Seq<char>>>;

/// The entries that `ini` holds.
pub uninterp spec fn ini_entries(ini: Ini) -> IniEntries;

/// Whether `ini` has the settings that `Ini::new` gives it: case-insensitive
/// names, default section `default`, comments after `;` and `#`, `=` and
/// `:` as delimiters, no multi-line values, no cascading to the default
/// section, and the default lists of boolean words.
pub uninterp spec fn ini_default_settings(ini: Ini) -> bool;

/// What `Ini::read` makes of `text` under the default settings: the entries
/// it holds, or the message that tells why the text is no INI.
pub uninterp spec fn ini_text_entries(text: Seq<char>) -> Result<IniEntries, Seq<char>>;

/// The value stored under `key` in `section`, if there is one.
pub open spec fn ini_value(entries: IniEntries, section: Seq<char>, key: Seq<char>) -> Option<
    Seq<char>,
> {
    if entries.contains_key((section, key)) {
        entries[(section, key)]
    } else {
        None
    }
}

/// Whether `name` is left as it is by the case folding of a case-insensitive
/// INI: all of it ASCII, and no capital letter in it.
pub open spec fn is_casefolded(name: Seq<char>) -> bool {
    forall|i: int| 0 <= i < name.len() ==> (name[i] as u32) < 0x80 && !('A' <= #[trigger] name[i] && name[i] <= 'Z')
}

/// The text view of an optional string.
pub open spec fn opt_string_view(s: Option<String>) -> Option<Seq<char>> {
    match s {
        Some(v) => Some(v@),
        None => None,
    }
}

/// Whether `value` is one of the words that `getboolcoerce` reads as `true`
/// (`true`, `yes`, `t`, `y`, `on`, `1`). The reader compares the value's
/// `to_lowercase()`; for these words that is the same as comparing with
/// ASCII letters made small, since no other character lowercases to one of
/// their letters.
pub open spec fn is_true_word(value: Seq<char>) -> bool {
    let v = crate::text::ascii_lower_seq(value);
    v == "true"@ || v == "yes"@ || v == "t"@ || v == "y"@ || v == "on"@ || v == "1"@
}

/// Whether `value` is one of the words that `getboolcoerce` reads as
/// `false` (`false`, `no`, `f`, `n`, `off`, `0`), compared as for
/// [`is_true_word`].
pub open spec fn is_false_word(value: Seq<char>) -> bool {
    let v = crate::text::ascii_lower_seq(value);
    v == "false"@ || v == "no"@ || v == "f"@ || v == "n"@ || v == "off"@ || v == "0"@
}

/// The message of `getboolcoerce` for a value that is no boolean word.
pub open spec fn bool_error_message(section: Seq<char>, key: Seq<char>) -> Seq<char> {
    "Unable to parse value into bool at "@ + section + ":"@ + key
}

/// `Ini::new`: an empty INI with the default settings.
#[verifier::external_body]
pub(crate) fn ini_new() -> (ini: Ini)
    ensures
        ini_default_settings(ini),
        ini_entries(ini) == IniEntries::empty(),
{
    Ini::new()
}

/// `Ini::read`: parses `text` and, when it is an INI, replaces the entries
/// with what it holds. On an error the entries stay as they were. The
/// settings are not touched.
#[verifier::external_body]
pub(crate) fn ini_read(ini: &mut Ini, text: String) -> (r: Result<(), String>)
    ensures
        ini_default_settings(*final(ini)) == ini_default_settings(*old(ini)),
        ini_default_settings(*old(ini)) ==> match ini_text_entries(text@) {
            Ok(entries) => r is Ok && ini_entries(*final(ini)) == entries,
            Err(message) => r matches Err(m) && m@ == message && ini_entries(*final(ini))
                == ini_entries(*old(ini)),
        },
{
    match ini.read(text) {
        Ok(_) => Ok(()),
        Err(e) => Err(e),
    }
}

/// `Ini::get`: the value stored under `key` in `section`. With the default
/// settings and names that case folding leaves as they are, that is the
/// entry itself; nothing is stated for other names.
#[verifier::external_body]
pub(crate) fn ini_get(ini: &Ini, section: &str, key: &str) -> (r: Option<String>)
    ensures
        ini_default_settings(*ini) && is_casefolded(section@) && is_casefolded(key@)
            ==> opt_string_view(r) == ini_value(ini_entries(*ini), section@, key@),
{
    ini.get(section, key)
}

/// `Ini::getboolcoerce`: the stored value read as a boolean word, `None`
/// when there is no value, or an error naming the section and key when the
/// value is no boolean word. Stated, as for `ini_get`, for the default
/// settings and names that case folding leaves as they are.
#[verifier::external_body]
pub(crate) fn ini_getboolcoerce(ini: &Ini, section: &str, key: &str) -> (r: Result<Option<bool>, String>)
    ensures
        ini_default_settings(*ini) && is_casefolded(section@) && is_casefolded(key@) ==> match ini_value(
            ini_entries(*ini),
            section@,
            key@,
        ) {
            None => r matches Ok(None),
            Some(v) => if is_true_word(v) {
                r matches Ok(Some(true))
            } else if is_false_word(v) {
                r matches Ok(Some(false))
            } else {
                r matches Err(m) && m@ == bool_error_message(section@, key@)
            },
        },
{
    ini.getboolcoerce(section, key)
}

} // verus!
