//! The symbols of the executable: names and the offsets that they stand for.

use vstd::prelude::*;
use vstd::utf8::{decode_utf8, encode_utf8, valid_utf8};

use crate::debugger::Debugger;
use crate::error::Error;

verus! {

/// `elf::string_table::StringTable`, the strings that the symbols of an
/// image are named from.
#[verifier::external_type_specification]
#[verifier::external_body]
pub struct ExStringTable<'data>(elf::string_table::StringTable<'data>);

/// The symbol type of a function.
pub const STT_FUNC: u8 = 2;

/// One entry of a symbol table: where its name begins in the string table
/// (0 for a symbol without a name), its type and binding, and its value.
#[derive(Debug, Clone, Copy, PartialEq, Eq)]
pub struct SymbolEntry {
    pub st_name: u32,
    pub st_info: u8,
    pub st_value: u64,
}

impl SymbolEntry {
    /// The type of the symbol: the low four bits of `st_info`.
    pub open spec fn spec_symbol_type(&self) -> u8 {
        (self.st_info % 16) as u8
    }

    /// The type of the symbol: the low four bits of `st_info`.
    #[verifier::when_used_as_spec(spec_symbol_type)]
    pub fn symbol_type(&self) -> (symbol_type: u8)
        ensures
            symbol_type == self.spec_symbol_type(),
    {
        let info = self.st_info;
        assert(info & 0xf == info % 16) by (bit_vector);
        info & 0xf
    }
}

/// A function of the executable: its name, if it has one, and its offset.
#[derive(Debug, Clone, Copy, PartialEq, Eq)]
pub struct FunctionSymbol<'a> {
    pub name: Option<&'a str>,
    pub offset: u64,
}

/// A function symbol as mathematics.
pub ghost struct FunctionSymbolView {
    pub name: Option<Seq<char>>,
    pub offset: u64,
}

impl<'a> View for FunctionSymbol<'a> {
    type V = FunctionSymbolView;

    open spec fn view(&self) -> FunctionSymbolView {
        FunctionSymbolView {
            name: match self.name {
                Some(name) => Some(name@),
                None => None,
            },
            offset: self.offset,
        }
    }
}

/// The function symbols as mathematics.
pub open spec fn views_of(symbols: Seq<FunctionSymbol>) -> Seq<FunctionSymbolView> {
    symbols.map_values(|symbol: FunctionSymbol| symbol@)
}

/// What the `elf` crate makes of an image: nothing if the image is
/// malformed; else nothing again if the image has no symbol table; else the
/// entries of the symbol table, in its order, and the bytes of the string
/// table that names them.
pub uninterp spec fn elf_symbol_table(data: Seq<u8>) -> Option<
    Option<(Seq<SymbolEntry>, Seq<u8>)>,
>;

/// The bytes that a string table holds.
pub uninterp spec fn string_table_bytes(table: elf::string_table::StringTable) -> Seq<u8>;

/// The index of the first zero byte in `bytes` at or after `from`, or the
/// length of `bytes` if there is none.
pub open spec fn first_nul(bytes: Seq<u8>, from: int) -> int
    decreases bytes.len() - from,
{
    if from < 0 || from >= bytes.len() {
        bytes.len() as int
    } else if bytes[from] == 0 {
        from
    } else {
        first_nul(bytes, from + 1)
    }
}

/// The string that begins at `offset` in the bytes of a string table: the
/// bytes up to the next zero byte, read as UTF-8. There is none where the
/// offset lies outside the bytes, where no zero byte follows, and where the
/// bytes are not UTF-8.
pub open spec fn string_at_offset(bytes: Seq<u8>, offset: int) -> Option<Seq<char>> {
    let end = first_nul(bytes, offset);
    if 0 <= offset <= bytes.len() && end < bytes.len() && valid_utf8(bytes.subrange(offset, end)) {
        Some(decode_utf8(bytes.subrange(offset, end)))
    } else {
        None
    }
}

/// Calls `elf::ElfBytes::<AnyEndian>::minimal_parse` on the image and
/// `ElfBytes::symbol_table` on what it returns, and copies the three fields
/// that the engine reads out of every `elf::symbol::Symbol` that the table
/// yields. The contract gives the result the name `elf_symbol_table`: it is
/// an error exactly where either call fails, and it depends on the bytes of
/// the image alone.
#[verifier::external_body]
fn parse_symbol_table<'a>(data: &'a [u8]) -> (tables: Result<
    Option<(Vec<SymbolEntry>, elf::string_table::StringTable<'a>)>,
    elf::ParseError,
>)
    ensures
        match tables {
            Ok(Some((entries, strings))) => elf_symbol_table(data@) == Some(
                Some((entries@, string_table_bytes(strings))),
            ),
            Ok(None) => elf_symbol_table(data@) == Some(
                None::<(Seq<SymbolEntry>, Seq<u8>)>,
            ),
            Err(_) => elf_symbol_table(data@) is None,
        },
{
    let file = elf::ElfBytes::<elf::endian::AnyEndian>::minimal_parse(data)?;
    let tables = file.symbol_table()?;
    let entry = |symbol: elf::symbol::Symbol|
        SymbolEntry {
            st_name: symbol.st_name,
            st_info: symbol.st_info,
            st_value: symbol.st_value,
        };
    Ok(tables.map(|(symbols, strings)| (symbols.iter().map(entry).collect(), strings)))
}

/// Calls `elf::string_table::StringTable::get`, which returns the bytes
/// from `offset` up to the next zero byte as a string, and fails where the
/// offset lies outside the table, where no zero byte follows, and where the
/// bytes are not UTF-8.
#[verifier::external_body]
fn string_at<'a>(table: &elf::string_table::StringTable<'a>, offset: usize) -> (string: Result<
    &'a str,
    elf::ParseError,
>)
    ensures
        match string {
            Ok(found) => string_at_offset(string_table_bytes(*table), offset as int) == Some(
                found@,
            ),
            Err(_) => string_at_offset(string_table_bytes(*table), offset as int) is None,
        },
{
    table.get(offset)
}

/// Whether two strings hold the same characters.
pub fn same_text(left: &str, right: &str) -> (same: bool)
    ensures
        same == (left@ == right@),
{
    let left_bytes = left.as_bytes();
    let right_bytes = right.as_bytes();
    proof {
        vstd::utf8::encode_utf8_decode_utf8(left@);
        vstd::utf8::encode_utf8_decode_utf8(right@);
    }
    if left_bytes.len() != right_bytes.len() {
        return false;
    }
    let mut index: usize = 0;
    while index < left_bytes.len()
        invariant
            index <= left_bytes.len(),
            left_bytes.len() == right_bytes.len(),
            left_bytes@ == encode_utf8(left@),
            right_bytes@ == encode_utf8(right@),
            decode_utf8(encode_utf8(left@)) == left@,
            decode_utf8(encode_utf8(right@)) == right@,
            forall|at: int| 0 <= at < index ==> left_bytes@[at] == right_bytes@[at],
        decreases left_bytes.len() - index,
    {
        if left_bytes[index] != right_bytes[index] {
            return false;
        }
        index += 1;
    }
    proof {
        assert(left_bytes@ =~= right_bytes@);
    }
    true
}

/// Whether the entry carries the name `name`: it has a name, the name is
/// not empty, the string table holds a string at that place, and the string
/// is `name`.
pub open spec fn is_named(entry: SymbolEntry, strings: Seq<u8>, name: Seq<char>) -> bool {
    entry.st_name != 0 && name.len() > 0 && string_at_offset(strings, entry.st_name as int)
        == Some(name)
}

/// The value of the first entry at or after `from` that carries the name.
pub open spec fn first_named(
    entries: Seq<SymbolEntry>,
    strings: Seq<u8>,
    name: Seq<char>,
    from: int,
) -> Option<u64>
    decreases entries.len() - from,
{
    if from < 0 || from >= entries.len() {
        None
    } else if is_named(entries[from], strings, name) {
        Some(entries[from].st_value)
    } else {
        first_named(entries, strings, name, from + 1)
    }
}

/// The functions among the entries from `from` on, in the order of the
/// table: each with its value as its offset, and with its name if it has
/// one. There is no list if the name of one of them cannot be read from the
/// string table.
pub open spec fn function_symbols(entries: Seq<SymbolEntry>, strings: Seq<u8>, from: int) -> Option<
    Seq<FunctionSymbolView>,
>
    decreases entries.len() - from,
{
    if from < 0 || from >= entries.len() {
        Some(Seq::empty())
    } else if entries[from].symbol_type() != STT_FUNC {
        function_symbols(entries, strings, from + 1)
    } else if entries[from].st_name > 0 && string_at_offset(strings, entries[from].st_name as int)
        is None {
        None
    } else {
        match function_symbols(entries, strings, from + 1) {
            Some(rest) => Some(
                seq![
                    FunctionSymbolView {
                        name: if entries[from].st_name > 0 {
                            string_at_offset(strings, entries[from].st_name as int)
                        } else {
                            None
                        },
                        offset: entries[from].st_value,
                    },
                ] + rest,
            ),
            None => None,
        }
    }
}

/// The functions found so far, followed by those that the rest of the table holds.
pub open spec fn functions_then(
    found: Seq<FunctionSymbolView>,
    rest: Option<Seq<FunctionSymbolView>>,
) -> Option<Seq<FunctionSymbolView>> {
    match rest {
        Some(rest) => Some(found + rest),
        None => None,
    }
}

/// Finds the value of the first symbol with this name. A symbol without a
/// name matches no name, and neither does one whose name cannot be read; the
/// empty name finds nothing.
pub fn symbol_address_in(
    entries: &Vec<SymbolEntry>,
    strings: &elf::string_table::StringTable,
    symbol_name: &str,
) -> (address: Option<u64>)
    ensures
        address == first_named(entries@, string_table_bytes(*strings), symbol_name@, 0),
{
    let sought = !symbol_name.is_empty();
    let mut index: usize = 0;
    while index < entries.len()
        invariant
            index <= entries.len(),
            sought == (symbol_name@.len() > 0),
            first_named(entries@, string_table_bytes(*strings), symbol_name@, 0) == first_named(
                entries@,
                string_table_bytes(*strings),
                symbol_name@,
                index as int,
            ),
        decreases entries.len() - index,
    {
        let entry = entries[index];
        if sought && entry.st_name != 0 {
            if let Ok(found) = string_at(strings, entry.st_name as usize) {
                if same_text(found, symbol_name) {
                    return Some(entry.st_value);
                }
            }
        }
        index += 1;
    }
    None
}

/// Lists the functions of a symbol table in its order. Where the name of
/// one of them cannot be read, the error of the first such symbol is the
/// result.
pub fn function_symbols_in<'a>(
    entries: &Vec<SymbolEntry>,
    strings: &elf::string_table::StringTable<'a>,
) -> (symbols: Result<Vec<FunctionSymbol<'a>>, elf::ParseError>)
    ensures
        match function_symbols(entries@, string_table_bytes(*strings), 0) {
            Some(list) => symbols matches Ok(found) && views_of(found@) == list,
            None => symbols is Err,
        },
{
    let mut symbols: Vec<FunctionSymbol<'a>> = Vec::new();
    let mut index: usize = 0;
    while index < entries.len()
        invariant
            index <= entries.len(),
            function_symbols(entries@, string_table_bytes(*strings), 0) == functions_then(
                views_of(symbols@),
                function_symbols(entries@, string_table_bytes(*strings), index as int),
            ),
        decreases entries.len() - index,
    {
        let entry = entries[index];
        if entry.symbol_type() == STT_FUNC {
            let name = if entry.st_name > 0 {
                match string_at(strings, entry.st_name as usize) {
                    Ok(name) => Some(name),
                    Err(error) => {
                        return Err(error);
                    },
                }
            } else {
                None
            };
            let symbol = FunctionSymbol { name, offset: entry.st_value };
            proof {
                let rest = function_symbols(
                    entries@,
                    string_table_bytes(*strings),
                    index as int + 1,
                );
                assert(views_of(symbols@.push(symbol)) =~= views_of(symbols@).push(symbol@));
                if rest is Some {
                    assert(views_of(symbols@) + (seq![symbol@] + rest->0) =~= views_of(
                        symbols@,
                    ).push(symbol@) + rest->0);
                }
            }
            symbols.push(symbol);
        }
        index += 1;
    }
    proof {
        assert(views_of(symbols@) + Seq::<FunctionSymbolView>::empty() =~= views_of(symbols@));
    }
    Ok(symbols)
}

impl Debugger {
    /// Finds the offset that the symbol `symbol_name` stands for in the
    /// executable: the value of the first symbol of that name in its symbol
    /// table. Only a name that is not empty can be found. An executable
    /// without a symbol table has no symbols; one that is malformed is an
    /// error, whatever the name.
    pub fn find_symbol_address_by_name(&self, symbol_name: &str) -> (address: Result<
        Option<u64>,
        Error,
    >)
        ensures
            match elf_symbol_table(self@.executable_data) {
                Some(Some((entries, strings))) => address matches Ok(found) && found
                    == first_named(entries, strings, symbol_name@, 0),
                Some(None) => address matches Ok(None),
                None => address matches Err(Error::InvalidElfFile(_)),
            },
    {
        match parse_symbol_table(self.executable_data()) {
            Ok(Some((entries, strings))) => Ok(symbol_address_in(&entries, &strings, symbol_name)),
            Ok(None) => Ok(None),
            Err(error) => Err(Error::InvalidElfFile(error)),
        }
    }

    /// Lists the functions of the executable in the order of its symbol
    /// table. An executable without a symbol table has none; one that is
    /// malformed, or that names a function from a place where the string
    /// table holds no string, is an error.
    pub fn list_function_symbols(&self) -> (symbols: Result<Vec<FunctionSymbol<'_>>, Error>)
        ensures
            match elf_symbol_table(self@.executable_data) {
                Some(Some((entries, strings))) => match function_symbols(entries, strings, 0) {
                    Some(list) => symbols matches Ok(found) && views_of(found@) == list,
                    None => symbols matches Err(Error::InvalidElfFile(_)),
                },
                Some(None) => symbols matches Ok(found) && found@.len() == 0,
                None => symbols matches Err(Error::InvalidElfFile(_)),
            },
    {
        match parse_symbol_table(self.executable_data()) {
            Ok(Some((entries, strings))) => match function_symbols_in(&entries, &strings) {
                Ok(symbols) => Ok(symbols),
                Err(error) => Err(Error::InvalidElfFile(error)),
            },
            Ok(None) => Ok(Vec::new()),
            Err(error) => Err(Error::InvalidElfFile(error)),
        }
    }
}

/// The empty name finds nothing, whatever the table holds.
pub proof fn lemma_empty_name_finds_nothing(entries: Seq<SymbolEntry>, strings: Seq<u8>, from: int)
    ensures
        first_named(entries, strings, Seq::<char>::empty(), from) is None,
    decreases entries.len() - from,
{
    if 0 <= from < entries.len() {
        lemma_empty_name_finds_nothing(entries, strings, from + 1);
    }
}

} // verus!
