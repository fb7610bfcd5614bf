use vstd::prelude::*;
use vstd::std_specs::iter::IteratorSpec;
use vstd::string::StringExecFns;

verus! {

/// Win32 `ERROR_FILE_NOT_FOUND`, the status of deleting a registry value that is not there.
pub const ERROR_FILE_NOT_FOUND: u32 = 2;

/// Win32 `ERROR_SUCCESS`.
pub const ERROR_SUCCESS: u32 = 0;

/// Whether a query of the `Run` value finds an entry: the query must succeed and
/// report data.
pub fn run_entry_present(query_succeeded: bool, data_len: u32) -> (present: bool)
    ensures
        present == (query_succeeded && data_len > 0),
{
    query_succeeded && data_len > 0
}

/// What deleting the `Run` value comes to: a value that was not there counts as
/// deleted; any other failure is reported with its status.
pub fn deletion_result(status: u32) -> (result: Result<(), u32>)
    ensures
        result == (if status == ERROR_SUCCESS || status == ERROR_FILE_NOT_FOUND {
            Ok::<(), u32>(())
        } else {
            Err::<(), u32>(status)
        }),
{
    if status == ERROR_FILE_NOT_FOUND || status == ERROR_SUCCESS {
        Ok(())
    } else {
        Err(status)
    }
}

/// `path` between double quotes.
pub open spec fn spec_quoted(path: Seq<char>) -> Seq<char> {
    seq!['"'] + path + seq!['"']
}

/// The command that the `Run` value holds: the executable's path between double
/// quotes, so that a path with spaces still starts the program.
pub fn quoted_command(path: &str) -> (command: String)
    ensures
        command@ == spec_quoted(path@),
{
    let quote = "\"";
    proof {
        reveal_strlit("\"");
    }
    let mut command = String::from_str(quote);
    command.append(path);
    command.append(quote);
    command
}

/// The UTF-16 code units of one character: the character itself below U+10000, a
/// surrogate pair above.
pub open spec fn spec_char_utf16(c: char) -> Seq<u16> {
    if (c as u32) < 0x10000 {
        seq![(c as u32) as u16]
    } else {
        let v = (c as u32) - 0x10000;
        seq![(0xD800 + v / 0x400) as u16, (0xDC00 + v % 0x400) as u16]
    }
}

/// The UTF-16 encoding of a string.
pub open spec fn spec_encode_utf16(s: Seq<char>) -> Seq<u16>
    decreases s.len(),
{
    if s.len() == 0 {
        seq![]
    } else {
        spec_encode_utf16(s.drop_last()) + spec_char_utf16(s.last())
    }
}

/// The UTF-16 encoding of a string, as `str::encode_utf16` gives it.
fn encode_utf16(s: &str) -> (units: Vec<u16>)
    ensures
        units@ == spec_encode_utf16(s@),
{
    broadcast use vstd::string::axiom_spec_iter;

    let mut units: Vec<u16> = Vec::new();
    let mut chars = s.chars();
    let ghost mut i: int = 0;
    assert(s@.take(0) =~= Seq::<char>::empty());
    assert(s@.skip(0) =~= s@);
    loop
        invariant
            0 <= i <= s@.len(),
            chars.remaining() == s@.skip(i),
            units@ == spec_encode_utf16(s@.take(i)),
        ensures
            units@ == spec_encode_utf16(s@),
        decreases s@.len() - i,
    {
        match chars.next() {
            Some(c) => {
                proof {
                    assert(s@.skip(i)[0] == s@[i]);
                    assert(s@.skip(i).drop_first() =~= s@.skip(i + 1));
                    assert(s@.take(i + 1).drop_last() =~= s@.take(i));
                }
                let ghost before = units@;
                let code = c as u32;
                proof {
                    vstd::utf8::char_is_scalar(c);
                }
                if code < 0x10000 {
                    units.push(code as u16);
                } else {
                    let v = code - 0x10000;
                    assert(v / 0x400 < 0x400);
                    units.push((0xD800 + v / 0x400) as u16);
                    units.push((0xDC00 + v % 0x400) as u16);
                }
                proof {
                    assert(units@ =~= before + spec_char_utf16(c));
                    assert(s@.take(i + 1).last() == c);
                    assert(spec_encode_utf16(s@.take(i + 1)) == spec_encode_utf16(
                        s@.take(i + 1).drop_last(),
                    ) + spec_char_utf16(s@.take(i + 1).last()));
                    i = i + 1;
                }
            },
            None => {
                proof {
                    assert(s@.take(i) =~= s@);
                }
                break;
            },
        }
    }
    units
}

/// The bytes of a sequence of 16-bit units, each unit low byte first.
pub open spec fn spec_le_bytes(units: Seq<u16>) -> Seq<u8>
    decreases units.len(),
{
    if units.len() == 0 {
        seq![]
    } else {
        spec_le_bytes(units.drop_last()) + seq![
            (units.last() % 256) as u8,
            (units.last() / 256) as u8,
        ]
    }
}

/// The data of a `REG_SZ` value holding `value`: its UTF-16 encoding with a
/// terminating zero unit, each unit low byte first.
pub fn registry_string_bytes(value: &str) -> (bytes: Vec<u8>)
    ensures
        bytes@ == spec_le_bytes(spec_encode_utf16(value@).push(0u16)),
{
    let mut units = encode_utf16(value);
    units.push(0u16);
    let ghost all = units@;
    let mut bytes: Vec<u8> = Vec::new();
    let mut i: usize = 0;
    while i < units.len()
        invariant
            units@ == all,
            i <= all.len(),
            bytes@ == spec_le_bytes(all.take(i as int)),
        decreases all.len() - i,
    {
        let unit = units[i];
        bytes.push((unit % 256) as u8);
        bytes.push((unit / 256) as u8);
        proof {
            assert(all.take(i + 1).drop_last() =~= all.take(i as int));
        }
        i += 1;
    }
    proof {
        assert(all.take(all.len() as int) =~= all);
    }
    bytes
}

} // verus!
