//! The live region table of a process: its regions, and where its code is mapped.

use vstd::prelude::*;

use crate::text::{
    chars_of, field, field_end, field_start, find, find_char, lemma_field_bounds, lemma_find,
    parse_number, parse_u64, part_of, skip_space_chars,
};

verus! {

/// Why a line of the region table could not be read.
#[derive(Debug, Clone, Copy, PartialEq, Eq)]
pub enum MapParseError {
    /// The permissions are not four characters of one byte each.
    PermissionLength,
    /// The field with this name is no number in this radix.
    IntegerField(&'static str, u32),
    /// The field with this name is missing.
    ExpectedField(&'static str),
}

/// The permissions of a mapped region.
#[derive(Debug, Clone)]
pub struct MemoryMapPermissions {
    pub read: bool,
    pub write: bool,
    pub execute: bool,
    pub private: bool,
}

/// One mapped region of a process: the addresses from `range_from` up to,
/// not including, `range_to`.
#[derive(Debug, Clone)]
pub struct MemoryMap {
    pub range_from: u64,
    pub range_to: u64,
    pub permissions: MemoryMapPermissions,
    pub device_major: u64,
    pub device_minor: u64,
    pub offset: u64,
    pub inode_number: u64,
    pub pathname: Option<String>,
}

/// A region as mathematics: the pathname is a sequence of characters.
pub ghost struct MemoryMapView {
    pub range_from: u64,
    pub range_to: u64,
    pub permissions: MemoryMapPermissions,
    pub device_major: u64,
    pub device_minor: u64,
    pub offset: u64,
    pub inode_number: u64,
    pub pathname: Option<Seq<char>>,
}

impl View for MemoryMap {
    type V = MemoryMapView;

    open spec fn view(&self) -> MemoryMapView {
        MemoryMapView {
            range_from: self.range_from,
            range_to: self.range_to,
            permissions: self.permissions,
            device_major: self.device_major,
            device_minor: self.device_minor,
            offset: self.offset,
            inode_number: self.inode_number,
            pathname: match self.pathname {
                Some(pathname) => Some(pathname@),
                None => None,
            },
        }
    }
}

/// Whether `c` takes one byte.
pub open spec fn one_byte(c: char) -> bool {
    (c as u32) < 128
}

/// The permissions that `value` spells: four characters of one byte each,
/// of which the first is `r` if the region may be read, the second `w` if it
/// may be written, the third `x` if it may be executed, and the fourth `p` if
/// it is private. What stands in their place otherwise does not matter.
pub open spec fn parse_permissions(value: Seq<char>) -> Result<MemoryMapPermissions, MapParseError> {
    if value.len() == 4 && one_byte(value[0]) && one_byte(value[1]) && one_byte(value[2])
        && one_byte(value[3]) {
        Ok(
            MemoryMapPermissions {
                read: value[0] == 'r',
                write: value[1] == 'w',
                execute: value[2] == 'x',
                private: value[3] == 'p',
            },
        )
    } else {
        Err(MapParseError::PermissionLength)
    }
}

/// The two numbers that `entry` spells in `radix`, with `separator`
/// between them. The first number ends at the first separator, the second
/// at the next one or at the end of `entry`; what follows a second separator
/// does not matter.
pub open spec fn parse_pair(entry: Seq<char>, separator: char, radix: u32) -> Result<
    (u64, u64),
    MapParseError,
> {
    let first_end = find(entry, separator, 0);
    match parse_u64(entry.subrange(0, first_end), radix) {
        None => Err(MapParseError::IntegerField("range_from", radix)),
        Some(first) => if first_end >= entry.len() {
            Err(MapParseError::IntegerField("range_to", radix))
        } else {
            let second_end = find(entry, separator, first_end + 1);
            match parse_u64(entry.subrange(first_end + 1, second_end), radix) {
                None => Err(MapParseError::IntegerField("range_to", radix)),
                Some(second) => Ok((first, second)),
            }
        },
    }
}

/// The region that a line of the table describes. The fields of a line are
/// separated by spaces, and stand in this order: the address range, in
/// hexadecimal with `-` between its ends; the permissions; the offset into
/// the file, in hexadecimal; the device, major and minor number in
/// hexadecimal with `:` between them; the inode number, in decimal; and the
/// pathname, which may be missing.
#[verifier::opaque]
pub open spec fn parse_entry(entry: Seq<char>) -> Result<MemoryMapView, MapParseError> {
    match field(entry, 0) {
        None => Err(MapParseError::ExpectedField("range")),
        Some(range) => match parse_pair(range, '-', 16) {
            Err(error) => Err(error),
            Ok(range) => match field(entry, 1) {
                None => Err(MapParseError::ExpectedField("permissions")),
                Some(permissions) => match parse_permissions(permissions) {
                    Err(error) => Err(error),
                    Ok(permissions) => match field(entry, 2) {
                        None => Err(MapParseError::ExpectedField("offset")),
                        Some(offset) => match parse_u64(offset, 16) {
                            None => Err(MapParseError::ExpectedField("offset")),
                            Some(offset) => match field(entry, 3) {
                                None => Err(MapParseError::ExpectedField("device")),
                                Some(device) => match parse_pair(device, ':', 16) {
                                    Err(error) => Err(error),
                                    Ok(device) => match field(entry, 4) {
                                        None => Err(MapParseError::ExpectedField("inode_number")),
                                        Some(inode) => match parse_u64(inode, 10) {
                                            None => Err(
                                                MapParseError::ExpectedField("inode_number"),
                                            ),
                                            Some(inode_number) => Ok(
                                                MemoryMapView {
                                                    range_from: range.0,
                                                    range_to: range.1,
                                                    permissions,
                                                    device_major: device.0,
                                                    device_minor: device.1,
                                                    offset,
                                                    inode_number,
                                                    pathname: field(entry, 5),
                                                },
                                            ),
                                        },
                                    },
                                },
                            },
                        },
                    },
                },
            },
        },
    }
}

/// A line without the carriage return that may end it.
pub open spec fn strip_return(line: Seq<char>) -> Seq<char> {
    if line.len() > 0 && line.last() == '\r' {
        line.drop_last()
    } else {
        line
    }
}

/// The line of `text` that begins at `from`, without what ends it.
pub open spec fn line_at(text: Seq<char>, from: int) -> Seq<char> {
    let end = find(text, '\n', from);
    if end < text.len() {
        strip_return(text.subrange(from, end))
    } else {
        text.subrange(from, end)
    }
}

/// The regions that the lines of `text` from `from` on describe, or why the
/// first line that cannot be read cannot. A line ends with a line feed, or
/// with a carriage return and a line feed; the last line may end with the
/// text.
pub open spec fn parse_table(text: Seq<char>, from: int) -> Result<
    Seq<MemoryMapView>,
    MapParseError,
>
    decreases text.len() + 1 - from,
    via parse_table_ends
{
    if from < 0 || from >= text.len() {
        Ok(Seq::empty())
    } else {
        match parse_entry(line_at(text, from)) {
            Err(error) => Err(error),
            Ok(region) => match parse_table(text, find(text, '\n', from) + 1) {
                Err(error) => Err(error),
                Ok(regions) => Ok(seq![region] + regions),
            },
        }
    }
}

#[via_fn]
proof fn parse_table_ends(text: Seq<char>, from: int) {
    if 0 <= from < text.len() {
        lemma_find(text, '\n', from);
    }
}

/// The regions read so far, followed by what the rest of the text holds.
pub open spec fn regions_then(
    regions: Seq<MemoryMapView>,
    rest: Result<Seq<MemoryMapView>, MapParseError>,
) -> Result<Seq<MemoryMapView>, MapParseError> {
    match rest {
        Ok(rest) => Ok(regions + rest),
        Err(error) => Err(error),
    }
}

/// Reading a table line by line: the regions of the lines read so far,
/// then the region of the next line, then what the lines after it hold.
pub proof fn lemma_parse_table_step(
    text: Seq<char>,
    from: int,
    regions: Seq<MemoryMapView>,
    entry: Result<MemoryMapView, MapParseError>,
)
    requires
        0 <= from < text.len(),
        entry == parse_entry(line_at(text, from)),
    ensures
        regions_then(regions, parse_table(text, from)) == match entry {
            Ok(region) => regions_then(
                regions.push(region),
                parse_table(text, find(text, '\n', from) + 1),
            ),
            Err(error) => Err(error),
        },
{
    match entry {
        Ok(region) => {
            let rest = parse_table(text, find(text, '\n', from) + 1);
            if rest is Ok {
                assert(regions + (seq![region] + rest->Ok_0) =~= regions.push(region)
                    + rest->Ok_0);
            }
        },
        Err(error) => {},
    }
}

/// The regions as mathematics.
pub open spec fn views_of(regions: Seq<MemoryMap>) -> Seq<MemoryMapView> {
    regions.map_values(|region: MemoryMap| region@)
}

fn permissions_of(value: &Vec<char>) -> (permissions: Result<MemoryMapPermissions, MapParseError>)
    ensures
        permissions == parse_permissions(value@),
{
    if value.len() != 4 {
        return Err(MapParseError::PermissionLength);
    }
    if (value[0] as u32) >= 128 || (value[1] as u32) >= 128 || (value[2] as u32) >= 128 || (
    value[3] as u32) >= 128 {
        return Err(MapParseError::PermissionLength);
    }
    Ok(
        MemoryMapPermissions {
            read: value[0] == 'r',
            write: value[1] == 'w',
            execute: value[2] == 'x',
            private: value[3] == 'p',
        },
    )
}

fn pair_of(entry: &Vec<char>, separator: char, radix: u32) -> (pair: Result<
    (u64, u64),
    MapParseError,
>)
    ensures
        pair == parse_pair(entry@, separator, radix),
{
    let first_end = find_char(entry, separator, 0);
    let first_part = part_of(entry, 0, first_end);
    let first = match parse_number(&first_part, radix) {
        Some(first) => first,
        None => {
            return Err(MapParseError::IntegerField("range_from", radix));
        },
    };
    if first_end >= entry.len() {
        return Err(MapParseError::IntegerField("range_to", radix));
    }
    let second_end = find_char(entry, separator, first_end + 1);
    let second_part = part_of(entry, first_end + 1, second_end);
    match parse_number(&second_part, radix) {
        Some(second) => Ok((first, second)),
        None => Err(MapParseError::IntegerField("range_to", radix)),
    }
}

/// The bounds of the field with this number, which begins at or after `from`.
fn field_bounds(text: &Vec<char>, from: usize, Ghost(number): Ghost<nat>) -> (bounds: Option<
    (usize, usize),
>)
    requires
        from <= text.len(),
        from == if number == 0 {
            0
        } else {
            field_end(text@, (number - 1) as nat)
        },
    ensures
        match bounds {
            Some((start, end)) => {
                &&& start == field_start(text@, number)
                &&& end == field_end(text@, number)
                &&& start < end <= text.len()
                &&& field(text@, number) == Some(text@.subrange(start as int, end as int))
            },
            None => field(text@, number) is None,
        },
{
    proof {
        lemma_field_bounds(text@, number);
    }
    let start = skip_space_chars(text, from);
    if start >= text.len() {
        return None;
    }
    let end = find_char(text, ' ', start);
    Some((start, end))
}

impl MemoryMapPermissions {
    /// Reads the permissions of a region from the four characters that the
    /// table gives them. Anything but four characters of one byte each is
    /// refused with `MapParseError::PermissionLength`.
    pub fn from_str(value: &str) -> (permissions: Result<MemoryMapPermissions, MapParseError>)
        ensures
            permissions == parse_permissions(value@),
    {
        let chars = chars_of(value);
        permissions_of(&chars)
    }
}

impl MemoryMap {
    /// Reads two numbers in `radix` with `separator` between them. Where
    /// the first is no number the error names `range_from`; where the second
    /// is missing or no number it names `range_to`.
    pub fn parse_range(entry: &str, separator: char, radix: u32) -> (range: Result<
        (u64, u64),
        MapParseError,
    >)
        requires
            2 <= radix <= 36,
        ensures
            range == parse_pair(entry@, separator, radix),
    {
        let chars = chars_of(entry);
        pair_of(&chars, separator, radix)
    }

    /// Reads one line of the region table.
    pub fn from_str(entry: &str) -> (region: Result<MemoryMap, MapParseError>)
        ensures
            match parse_entry(entry@) {
                Ok(view) => region matches Ok(found) && found@ == view,
                Err(error) => region == Err::<MemoryMap, MapParseError>(error),
            },
    {
        proof {
            reveal(parse_entry);
        }
        let chars = chars_of(entry);
        let (range_start, range_end) = match field_bounds(&chars, 0, Ghost(0)) {
            Some(bounds) => bounds,
            None => {
                return Err(MapParseError::ExpectedField("range"));
            },
        };
        let range_part = part_of(&chars, range_start, range_end);
        let (range_from, range_to) = match pair_of(&range_part, '-', 16) {
            Ok(range) => range,
            Err(error) => {
                return Err(error);
            },
        };
        let (permissions_start, permissions_end) = match field_bounds(
            &chars,
            range_end,
            Ghost(1),
        ) {
            Some(bounds) => bounds,
            None => {
                return Err(MapParseError::ExpectedField("permissions"));
            },
        };
        let permissions_part = part_of(&chars, permissions_start, permissions_end);
        let permissions = match permissions_of(&permissions_part) {
            Ok(permissions) => permissions,
            Err(error) => {
                return Err(error);
            },
        };
        let (offset_start, offset_end) = match field_bounds(&chars, permissions_end, Ghost(2)) {
            Some(bounds) => bounds,
            None => {
                return Err(MapParseError::ExpectedField("offset"));
            },
        };
        let offset_part = part_of(&chars, offset_start, offset_end);
        let offset = match parse_number(&offset_part, 16) {
            Some(offset) => offset,
            None => {
                return Err(MapParseError::ExpectedField("offset"));
            },
        };
        let (device_start, device_end) = match field_bounds(&chars, offset_end, Ghost(3)) {
            Some(bounds) => bounds,
            None => {
                return Err(MapParseError::ExpectedField("device"));
            },
        };
        let device_part = part_of(&chars, device_start, device_end);
        let (device_major, device_minor) = match pair_of(&device_part, ':', 16) {
            Ok(device) => device,
            Err(error) => {
                return Err(error);
            },
        };
        let (inode_start, inode_end) = match field_bounds(&chars, device_end, Ghost(4)) {
            Some(bounds) => bounds,
            None => {
                return Err(MapParseError::ExpectedField("inode_number"));
            },
        };
        let inode_part = part_of(&chars, inode_start, inode_end);
        let inode_number = match parse_number(&inode_part, 10) {
            Some(inode_number) => inode_number,
            None => {
                return Err(MapParseError::ExpectedField("inode_number"));
            },
        };
        let pathname = match field_bounds(&chars, inode_end, Ghost(5)) {
            Some((start, end)) => Some(entry.substring_char(start, end).to_owned()),
            None => None,
        };
        Ok(
            MemoryMap {
                range_from,
                range_to,
                permissions,
                device_major,
                device_minor,
                offset,
                inode_number,
                pathname,
            },
        )
    }
}

impl MemoryMap {
    /// The live address of the byte that lies `offset` bytes into the file
    /// that backs this region: `range_from - self.offset + offset`, reduced
    /// to 64 bits. The difference is the load bias of the region.
    pub open spec fn spec_live_address(&self, offset: u64) -> u64 {
        ((self.range_from - self.offset + offset) % 0x1_0000_0000_0000_0000) as u64
    }

    /// The live address of the byte that lies `offset` bytes into the file
    /// that backs this region.
    #[verifier::when_used_as_spec(spec_live_address)]
    pub fn live_address(&self, offset: u64) -> (address: u64)
        ensures
            address == self.spec_live_address(offset),
            0 <= self.range_from - self.offset + offset <= u64::MAX ==> address
                == self.range_from - self.offset + offset,
    {
        self.range_from.wrapping_sub(self.offset).wrapping_add(offset)
    }
}

/// The index of the first region at or after `from` that may be executed, or
/// the number of regions if there is none.
pub open spec fn first_executable(regions: Seq<MemoryMap>, from: int) -> int
    decreases regions.len() - from,
{
    if from < 0 || from >= regions.len() {
        regions.len() as int
    } else if regions[from].permissions.execute {
        from
    } else {
        first_executable(regions, from + 1)
    }
}

/// The region table of a process, in the order of the table.
#[derive(Debug)]
pub struct ProcMemoryMaps {
    memory_maps: Vec<MemoryMap>,
}

impl View for ProcMemoryMaps {
    type V = Seq<MemoryMap>;

    closed spec fn view(&self) -> Seq<MemoryMap> {
        self.memory_maps@
    }
}

impl ProcMemoryMaps {
    /// A table of these regions.
    pub fn new(memory_maps: Vec<MemoryMap>) -> (table: ProcMemoryMaps)
        ensures
            table@ == memory_maps@,
    {
        ProcMemoryMaps { memory_maps }
    }

    /// Reads the region table of a process from its text, one region to
    /// a line. The first line that cannot be read ends the reading with its
    /// error.
    pub fn parse(content: &str) -> (table: Result<ProcMemoryMaps, MapParseError>)
        ensures
            match parse_table(content@, 0) {
                Ok(views) => table matches Ok(found) && views_of(found@) == views,
                Err(error) => table matches Err(found) && found == error,
            },
    {
        let chars = chars_of(content);
        let mut memory_maps: Vec<MemoryMap> = Vec::new();
        let mut from: usize = 0;
        while from < chars.len()
            invariant
                chars@ == content@,
                from <= chars.len(),
                parse_table(content@, 0) == regions_then(
                    views_of(memory_maps@),
                    parse_table(content@, from as int),
                ),
            decreases chars.len() - from,
        {
            let end = find_char(&chars, '\n', from);
            let line_end = if end < chars.len() && from < end && chars[end - 1] == '\r' {
                end - 1
            } else {
                end
            };
            proof {
                let whole = chars@.subrange(from as int, end as int);
                let line = chars@.subrange(from as int, line_end as int);
                if line_end < end {
                    assert(whole.drop_last() =~= line);
                }
                assert(line_at(content@, from as int) == line);
            }
            let entry = MemoryMap::from_str(content.substring_char(from, line_end));
            proof {
                lemma_parse_table_step(
                    content@,
                    from as int,
                    views_of(memory_maps@),
                    parse_entry(line_at(content@, from as int)),
                );
            }
            let region = match entry {
                Ok(region) => region,
                Err(error) => {
                    return Err(error);
                },
            };
            proof {
                assert(views_of(memory_maps@.push(region)) =~= views_of(memory_maps@).push(
                    region@,
                ));
            }
            memory_maps.push(region);
            from = if end < chars.len() {
                end + 1
            } else {
                end
            };
        }
        proof {
            let views = views_of(memory_maps@);
            assert(views + Seq::<MemoryMapView>::empty() =~= views);
        }
        Ok(ProcMemoryMaps { memory_maps })
    }

    /// Whether any region of the table may be executed.
    pub open spec fn spec_has_text_section(&self) -> bool {
        first_executable(self@, 0) < self@.len()
    }

    /// The text section: the first region that may be executed.
    pub open spec fn text_section(&self) -> MemoryMap {
        self@[first_executable(self@, 0)]
    }

    /// The number of regions.
    pub fn len(&self) -> (len: usize)
        ensures
            len == self@.len(),
    {
        self.memory_maps.len()
    }

    /// The region at `index` in the table.
    pub fn get(&self, index: usize) -> (region: Option<&MemoryMap>)
        ensures
            index < self@.len() ==> region == Some(&self@[index as int]),
            index >= self@.len() ==> region is None,
    {
        if index < self.memory_maps.len() {
            Some(&self.memory_maps[index])
        } else {
            None
        }
    }

    /// The first region that may be executed, if there is one.
    pub fn find_text_section(&self) -> (region: Option<&MemoryMap>)
        ensures
            self.spec_has_text_section() ==> region == Some(&self.text_section()),
            !self.spec_has_text_section() ==> region is None,
            region matches Some(found) ==> found.permissions.execute,
            forall|index: int|
                0 <= index < first_executable(self@, 0)
                    ==> !#[trigger] self@[index].permissions.execute,
    {
        proof {
            lemma_text_section_is_first(self@, 0);
        }
        let mut index: usize = 0;
        while index < self.memory_maps.len()
            invariant
                index <= self.memory_maps@.len(),
                first_executable(self@, 0) == first_executable(self@, index as int),
                forall|index: int|
                    0 <= index < first_executable(self@, 0)
                        ==> !#[trigger] self@[index].permissions.execute,
            decreases self.memory_maps@.len() - index,
        {
            if self.memory_maps[index].permissions.execute {
                return Some(&self.memory_maps[index]);
            }
            index += 1;
        }
        None
    }

    /// Whether any region of the table may be executed.
    #[verifier::when_used_as_spec(spec_has_text_section)]
    pub fn has_text_section(&self) -> (found: bool)
        ensures
            found == self.spec_has_text_section(),
    {
        self.find_text_section().is_some()
    }

    /// The text section. A process that runs has one; a table without one is
    /// not the table of a process.
    pub fn get_text_section(&self) -> (region: &MemoryMap)
        requires
            self.has_text_section(),
        ensures
            *region == self.text_section(),
            region.permissions.execute,
            forall|index: int|
                0 <= index < first_executable(self@, 0)
                    ==> !#[trigger] self@[index].permissions.execute,
    {
        self.find_text_section().unwrap()
    }
}

/// The text section is the first region that may be executed: no region
/// before it may be.
pub proof fn lemma_text_section_is_first(regions: Seq<MemoryMap>, from: int)
    requires
        0 <= from,
    ensures
        from <= first_executable(regions, from) || regions.len() <= from,
        first_executable(regions, from) <= regions.len(),
        first_executable(regions, from) < regions.len() ==> regions[first_executable(
            regions,
            from,
        )].permissions.execute,
        forall|index: int|
            from <= index < first_executable(regions, from)
                ==> !#[trigger] regions[index].permissions.execute,
    decreases regions.len() - from,
{
    if from < regions.len() && !regions[from].permissions.execute {
        lemma_text_section_is_first(regions, from + 1);
    }
}

} // verus!
