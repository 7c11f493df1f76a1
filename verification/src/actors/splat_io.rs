//! Readers for the two splat interchange formats an artifact may come in: the
//! headerless `.splat` record array and the Gaussian-splatting `.ply`.

use crate::actors::scene_memory::GaussianSplat;
use crate::bytes as le;
use crate::single;
use crate::text;
use vstd::prelude::*;
use vstd::string::*;

verus! {

// ---------------------------------------------------------------------------
// .splat
// ---------------------------------------------------------------------------

/// Bytes in one `.splat` record: three position floats, three scale floats,
/// four color bytes, four rotation bytes.
pub const RECORD_SIZE: usize = 32;

/// A color byte as a fraction of 255.
pub open spec fn color_fraction(b: u8) -> u32 {
    single::ratio_bits(b as nat, 255)
}

/// A rotation byte, `(b - 128) / 128`.
pub open spec fn rotation_fraction(b: u8) -> u32 {
    if b >= 128 {
        single::ratio_bits((b - 128) as nat, 128)
    } else {
        (single::SIGN + single::ratio_bits((128 - b) as nat, 128)) as u32
    }
}

/// The splat of the record that starts at byte `at`.
pub open spec fn record_splat(bytes: Seq<u8>, at: int) -> GaussianSplat {
    GaussianSplat {
        position: [le::word_at(bytes, at), le::word_at(bytes, at + 4), le::word_at(bytes, at + 8)],
        scale: [le::word_at(bytes, at + 12), le::word_at(bytes, at + 16), le::word_at(bytes, at + 20)],
        rotation: [
            rotation_fraction(bytes[at + 28]),
            rotation_fraction(bytes[at + 29]),
            rotation_fraction(bytes[at + 30]),
            rotation_fraction(bytes[at + 31]),
        ],
        color: [
            color_fraction(bytes[at + 24]),
            color_fraction(bytes[at + 25]),
            color_fraction(bytes[at + 26]),
            color_fraction(bytes[at + 27]),
        ],
    }
}

pub open spec fn splat_size_message(len: nat) -> Seq<char> {
    ".splat file size "@ + text::decimal(len) + " isn't a multiple of the 32-byte record size"@
}

fn rotation_value(b: u8) -> (bits: u32)
    ensures
        bits == rotation_fraction(b),
{
    if b >= 128 {
        single::ratio((b - 128) as u64, 128)
    } else {
        single::SIGN + single::ratio((128 - b) as u64, 128)
    }
}

/// Whether `r` is what a `.splat` file holding `bytes` loads as.
pub open spec fn is_splat_result(bytes: Seq<u8>, r: Result<Vec<GaussianSplat>, String>) -> bool {
    match r {
        Ok(splats) => {
            &&& bytes.len() % 32 == 0
            &&& splats@.len() == bytes.len() / 32
            &&& forall|i: int|
                0 <= i < splats@.len() ==> #[trigger] splats@[i] == record_splat(bytes, 32 * i)
        },
        Err(message) => {
            &&& bytes.len() % 32 != 0
            &&& message@ == splat_size_message(bytes.len())
        },
    }
}

/// Reads a `.splat` file: a flat array of little-endian records.
pub fn load_splat(bytes: &[u8]) -> (r: Result<Vec<GaussianSplat>, String>)
    ensures
        is_splat_result(bytes@, r),
{
    if bytes.len() % RECORD_SIZE != 0 {
        let mut message = ".splat file size ".to_string();
        text::push_decimal(&mut message, bytes.len() as u128);
        message.append(" isn't a multiple of the 32-byte record size");
        return Err(message);
    }
    let count: usize = bytes.len() / RECORD_SIZE;
    let mut splats: Vec<GaussianSplat> = Vec::new();
    let mut i: usize = 0;
    while i < count
        invariant
            i <= count,
            32 * count == bytes.len(),
            splats@.len() == i,
            forall|j: int|
                0 <= j < i ==> #[trigger] splats@[j] == record_splat(bytes@, 32 * j),
        decreases count - i,
    {
        let at: usize = i * RECORD_SIZE;
        let splat = GaussianSplat {
            position: [le::read_word(bytes, at), le::read_word(bytes, at + 4), le::read_word(bytes, at + 8)],
            scale: [le::read_word(bytes, at + 12), le::read_word(bytes, at + 16), le::read_word(bytes, at + 20)],
            rotation: [
                rotation_value(bytes[at + 28]),
                rotation_value(bytes[at + 29]),
                rotation_value(bytes[at + 30]),
                rotation_value(bytes[at + 31]),
            ],
            color: [
                single::ratio(bytes[at + 24] as u64, 255),
                single::ratio(bytes[at + 25] as u64, 255),
                single::ratio(bytes[at + 26] as u64, 255),
                single::ratio(bytes[at + 27] as u64, 255),
            ],
        };
        let ghost expected = record_splat(bytes@, 32 * i);
        assert(splat.position =~= expected.position);
        assert(splat.scale =~= expected.scale);
        assert(splat.rotation =~= expected.rotation);
        assert(splat.color =~= expected.color);
        splats.push(splat);
        i += 1;
    }
    Ok(splats)
}

// ---------------------------------------------------------------------------
// .ply header
// ---------------------------------------------------------------------------

/// One vertex property that a header declares: its name and byte width.
#[derive(Debug)]
pub struct PlyProperty {
    pub name: String,
    pub size: usize,
}

/// What a header says: the properties of a vertex as (name, byte width) pairs,
/// and whether the last element declared was the vertex.
pub struct HeaderModel {
    pub binary_little_endian: bool,
    pub vertex_count: usize,
    pub properties: Seq<(Seq<char>, nat)>,
    pub in_vertex: bool,
}

/// Byte width of a scalar property type.
pub open spec fn type_size(ty: Seq<char>) -> Option<nat> {
    if ty == "float"@ || ty == "float32"@ || ty == "int"@ || ty == "int32"@ || ty == "uint"@ || ty
        == "uint32"@ {
        Some(4)
    } else if ty == "double"@ || ty == "float64"@ {
        Some(8)
    } else if ty == "uchar"@ || ty == "uint8"@ || ty == "char"@ || ty == "int8"@ {
        Some(1)
    } else if ty == "short"@ || ty == "int16"@ || ty == "ushort"@ || ty == "uint16"@ {
        Some(2)
    } else {
        None
    }
}

pub open spec fn type_message(ty: Seq<char>) -> Seq<char> {
    "unsupported PLY property type '"@ + ty
        + "' (only scalar numeric types are handled — no list properties)"@
}

/// Byte width of the scalar property type named `ty`.
pub fn ply_type_size(ty: &str) -> (r: Result<usize, String>)
    ensures
        match r {
            Ok(size) => type_size(ty@) == Some(size as nat) && 1 <= size <= 8,
            Err(message) => type_size(ty@) is None && message@ == type_message(ty@),
        },
{
    let t = text::chars_of(ty);
    let t = t.as_slice();
    if text::equals(t, "float") || text::equals(t, "float32") || text::equals(t, "int")
        || text::equals(t, "int32") || text::equals(t, "uint") || text::equals(t, "uint32") {
        Ok(4)
    } else if text::equals(t, "double") || text::equals(t, "float64") {
        Ok(8)
    } else if text::equals(t, "uchar") || text::equals(t, "uint8") || text::equals(t, "char")
        || text::equals(t, "int8") {
        Ok(1)
    } else if text::equals(t, "short") || text::equals(t, "int16") || text::equals(t, "ushort")
        || text::equals(t, "uint16") {
        Ok(2)
    } else {
        let mut message = "unsupported PLY property type '".to_string();
        message.append(ty);
        message.append("' (only scalar numeric types are handled — no list properties)");
        Err(message)
    }
}

/// Before any header line is read.
pub open spec fn empty_header() -> HeaderModel {
    HeaderModel {
        binary_little_endian: false,
        vertex_count: 0,
        properties: Seq::empty(),
        in_vertex: false,
    }
}

/// What an `element` line does; `rest` follows the keyword.
pub open spec fn element_line(h: HeaderModel, rest: Seq<char>) -> Result<HeaderModel, Seq<char>> {
    if text::first_word(rest) == Some("vertex"@) {
        let count = match text::first_word(text::after_first_word(rest)) {
            Some(word) => text::number(word),
            None => Some(0usize),
        };
        match count {
            Some(n) => Ok(HeaderModel { vertex_count: n, in_vertex: true, ..h }),
            None => Err("bad vertex count"@),
        }
    } else {
        Ok(HeaderModel { in_vertex: false, ..h })
    }
}

/// What a `property` line of the vertex element does.
pub open spec fn property_line(h: HeaderModel, rest: Seq<char>) -> Result<HeaderModel, Seq<char>> {
    match text::first_word(rest) {
        None => Err("malformed property line"@),
        Some(ty) => if ty == "list"@ {
            Err(
                "list properties (e.g. face indices) aren't supported — this loader is for splat point clouds, not meshes"@,
            )
        } else {
            match text::first_word(text::after_first_word(rest)) {
                None => Err("malformed property line"@),
                Some(name) => match type_size(ty) {
                    None => Err(type_message(ty)),
                    Some(size) => Ok(
                        HeaderModel { properties: h.properties.push((name, size)), ..h },
                    ),
                },
            }
        },
    }
}

/// What one header line does; lines of other kinds do nothing.
pub open spec fn header_line(h: HeaderModel, line: Seq<char>) -> Result<HeaderModel, Seq<char>> {
    let line = text::trim(line);
    if text::begins_with(line, "format "@) {
        Ok(
            HeaderModel {
                binary_little_endian: text::begins_with(
                    line.skip("format "@.len() as int),
                    "binary_little_endian"@,
                ),
                ..h
            },
        )
    } else if text::begins_with(line, "element "@) {
        element_line(h, line.skip("element "@.len() as int))
    } else if text::begins_with(line, "property "@) {
        if h.in_vertex {
            property_line(h, line.skip("property "@.len() as int))
        } else {
            Ok(h)
        }
    } else {
        Ok(h)
    }
}

/// Reads header lines in order, stopping at the first that is refused.
pub open spec fn read_lines(lines: Seq<Seq<char>>) -> Result<HeaderModel, Seq<char>>
    decreases lines.len(),
{
    if lines.len() == 0 {
        Ok(empty_header())
    } else {
        match read_lines(lines.drop_last()) {
            Ok(h) => header_line(h, lines.last()),
            Err(message) => Err(message),
        }
    }
}

/// The header that `text` spells.
pub open spec fn header_of(text: Seq<char>) -> Result<HeaderModel, Seq<char>> {
    read_lines(text::lines(text))
}

pub open spec fn property_list(properties: Seq<PlyProperty>) -> Seq<(Seq<char>, nat)> {
    properties.map_values(|p: PlyProperty| (p.name@, p.size as nat))
}

/// A parsed header.
pub struct PlyHeader {
    pub binary_little_endian: bool,
    pub vertex_count: usize,
    pub properties: Vec<PlyProperty>,
    pub in_vertex: bool,
}

impl View for PlyHeader {
    type V = HeaderModel;

    open spec fn view(&self) -> HeaderModel {
        HeaderModel {
            binary_little_endian: self.binary_little_endian,
            vertex_count: self.vertex_count,
            properties: property_list(self.properties@),
            in_vertex: self.in_vertex,
        }
    }
}

impl PlyHeader {
    fn read_element(&mut self, rest: &[char]) -> (r: Result<(), String>)
        ensures
            match (r, element_line(old(self)@, rest@)) {
                (Ok(_), Ok(h)) => final(self)@ == h,
                (Err(message), Err(expected)) => message@ == expected,
                _ => false,
            },
            final(self).properties@ == old(self).properties@,
    {
        self.in_vertex = false;
        if let Some((name, tail)) = text::next_word(rest) {
            if text::equals(name, "vertex") {
                self.in_vertex = true;
                let count: Option<usize> = match text::next_word(tail) {
                    Some((word, _rest)) => text::parse_number(word),
                    None => Some(0),
                };
                match count {
                    Some(n) => {
                        self.vertex_count = n;
                    },
                    None => {
                        return Err("bad vertex count".to_string());
                    },
                }
            }
        }
        Ok(())
    }

    fn read_property(&mut self, rest: &[char]) -> (r: Result<(), String>)
        ensures
            match (r, property_line(old(self)@, rest@)) {
                (Ok(_), Ok(h)) => final(self)@ == h,
                (Err(message), Err(expected)) => message@ == expected,
                _ => false,
            },
            final(self).properties@.len() <= old(self).properties@.len() + 1,
            sizes_are_small(old(self).properties@) ==> sizes_are_small(final(self).properties@),
    {
        let (ty, tail) = match text::next_word(rest) {
            Some(found) => found,
            None => {
                return Err("malformed property line".to_string());
            },
        };
        if text::equals(ty, "list") {
            return Err(
                "list properties (e.g. face indices) aren't supported — this loader is for splat point clouds, not meshes".to_string(),
            );
        }
        let (name, _rest) = match text::next_word(tail) {
            Some(found) => found,
            None => {
                return Err("malformed property line".to_string());
            },
        };
        let ty_text = text::text_of(ty);
        match ply_type_size(ty_text.as_str()) {
            Ok(size) => {
                self.properties.push(PlyProperty { name: text::text_of(name), size });
                assert(property_list(self.properties@) =~= property_list(old(self).properties@).push(
                    (name@, size as nat),
                ));
                Ok(())
            },
            Err(message) => Err(message),
        }
    }

    fn read_line(&mut self, line: &[char]) -> (r: Result<(), String>)
        ensures
            match (r, header_line(old(self)@, line@)) {
                (Ok(_), Ok(h)) => final(self)@ == h,
                (Err(message), Err(expected)) => message@ == expected,
                _ => false,
            },
            9 * final(self).properties@.len() <= 9 * old(self).properties@.len() + line@.len(),
            sizes_are_small(old(self).properties@) ==> sizes_are_small(final(self).properties@),
    {
        let ghost whole = line@;
        let line = text::trim_chars(line);
        proof {
            lemma_trim_len(whole);
            reveal_strlit("property ");
        }
        if let Some(rest) = text::strip_prefix(line, "format ") {
            self.binary_little_endian = text::starts_with(rest, "binary_little_endian");
            Ok(())
        } else if let Some(rest) = text::strip_prefix(line, "element ") {
            self.read_element(rest)
        } else if let Some(rest) = text::strip_prefix(line, "property ") {
            if self.in_vertex {
                self.read_property(rest)
            } else {
                Ok(())
            }
        } else {
            Ok(())
        }
    }
}

/// Every property is one to eight bytes wide.
pub open spec fn sizes_are_small(properties: Seq<PlyProperty>) -> bool {
    forall|i: int| 0 <= i < properties.len() ==> 1 <= (#[trigger] properties[i]).size <= 8
}

proof fn lemma_trim_len(s: Seq<char>)
    ensures
        text::trim(s).len() <= s.len(),
{
    lemma_trim_start_len(s);
    lemma_trim_end_len(text::trim_start(s));
}

proof fn lemma_trim_start_len(s: Seq<char>)
    ensures
        text::trim_start(s).len() <= s.len(),
    decreases s.len(),
{
    if s.len() > 0 && text::is_white(s[0]) {
        lemma_trim_start_len(s.skip(1));
    }
}

proof fn lemma_trim_end_len(s: Seq<char>)
    ensures
        text::trim_end(s).len() <= s.len(),
    decreases s.len(),
{
    if s.len() > 0 && text::is_white(s.last()) {
        lemma_trim_end_len(s.drop_last());
    }
}

/// Parses the text of a header.
pub fn parse_header(text: &str) -> (r: Result<PlyHeader, String>)
    ensures
        match (r, header_of(text@)) {
            (Ok(header), Ok(h)) => header@ == h,
            (Err(message), Err(expected)) => message@ == expected,
            _ => false,
        },
        r matches Ok(header) ==> header.fits(),
{
    let chars = text::chars_of(text);
    let chars = chars.as_slice();
    let mut header = PlyHeader {
        binary_little_endian: false,
        vertex_count: 0,
        properties: Vec::new(),
        in_vertex: false,
    };
    let mut pos: usize = 0;
    let ghost mut done: Seq<Seq<char>> = Seq::empty();
    proof {
        assert(property_list(header.properties@) =~= Seq::empty());
        assert(chars@.skip(0) =~= chars@);
        assert(done + text::lines(chars@) =~= text::lines(chars@));
    }
    loop
        invariant
            chars@ == text@,
            pos <= chars.len(),
            text::lines(text@) == done + text::lines(chars@.skip(pos as int)),
            read_lines(done) == Ok::<HeaderModel, Seq<char>>(header@),
            9 * header.properties@.len() <= pos,
            sizes_are_small(header.properties@),
        decreases chars@.len() - pos,
    {
        let rest = vstd::slice::slice_subrange(chars, pos, chars.len());
        assert(rest@ =~= chars@.skip(pos as int));
        let n: usize = text::first_line_len(rest);
        let line = vstd::slice::slice_subrange(rest, 0, n);
        assert(line@ =~= rest@.take(n as int));
        let ghost before = done;
        let ghost count = header.properties@.len();
        proof {
            done = done.push(line@);
            assert(done.drop_last() =~= before);
        }
        let outcome = header.read_line(line);
        let last = n == rest.len();
        proof {
            if last {
                assert(rest@.take(n as int) =~= rest@);
                assert(text::lines(text@) =~= done);
            } else {
                assert(rest@.skip(n + 1) =~= chars@.skip(pos + n + 1));
                assert(text::lines(text@) =~= done + text::lines(chars@.skip(pos + n + 1)));
            }
        }
        match outcome {
            Ok(_) => {},
            Err(message) => {
                proof {
                    assert(text::lines(text@).take(done.len() as int) =~= done);
                    lemma_refused_stays_refused(done, text::lines(text@));
                }
                return Err(message);
            },
        }
        if last {
            assert(9 * header.properties@.len() <= chars@.len());
            return Ok(header);
        }
        pos = pos + n + 1;
    }
}

proof fn lemma_refused_stays_refused(prefix: Seq<Seq<char>>, lines: Seq<Seq<char>>)
    requires
        read_lines(prefix) is Err,
        prefix.len() <= lines.len(),
        lines.take(prefix.len() as int) == prefix,
    ensures
        read_lines(lines) == read_lines(prefix),
    decreases lines.len(),
{
    if prefix.len() == lines.len() {
        assert(lines.take(prefix.len() as int) =~= lines);
    } else {
        assert(lines.drop_last().take(prefix.len() as int) =~= prefix);
        lemma_refused_stays_refused(prefix, lines.drop_last());
    }
}

impl PlyHeader {
    /// Every property is one to eight bytes wide and the record they make up
    /// has a machine size.
    pub open spec fn fits(&self) -> bool {
        sizes_are_small(self.properties@) && 8 * self.properties@.len() <= usize::MAX
    }
}

// ---------------------------------------------------------------------------
// .ply body
// ---------------------------------------------------------------------------

/// One vertex as stored: scales are logarithms, the opacity is a logit and
/// `dc` holds the zeroth spherical-harmonic terms. Every field is the bit
/// pattern of an IEEE-754 single.
#[derive(Debug, Clone, Copy)]
pub struct PlyVertex {
    pub position: [u32; 3],
    pub log_scale: [u32; 3],
    pub rotation: [u32; 4],
    pub opacity: u32,
    pub dc: [u32; 3],
}

/// The properties a splat cloud must have, in the order they are checked.
pub open spec fn wanted_names() -> Seq<Seq<char>> {
    seq![
        "x"@,
        "y"@,
        "z"@,
        "scale_0"@,
        "scale_1"@,
        "scale_2"@,
        "rot_0"@,
        "rot_1"@,
        "rot_2"@,
        "rot_3"@,
        "opacity"@,
        "f_dc_0"@,
        "f_dc_1"@,
        "f_dc_2"@,
    ]
}

pub const WANTED: usize = 14;

fn wanted_name(k: usize) -> (name: &'static str)
    requires
        k < WANTED,
    ensures
        name@ == wanted_names()[k as int],
{
    match k {
        0 => "x",
        1 => "y",
        2 => "z",
        3 => "scale_0",
        4 => "scale_1",
        5 => "scale_2",
        6 => "rot_0",
        7 => "rot_1",
        8 => "rot_2",
        9 => "rot_3",
        10 => "opacity",
        11 => "f_dc_0",
        12 => "f_dc_1",
        _ => "f_dc_2",
    }
}

/// Bytes that the properties take together.
pub open spec fn record_size(properties: Seq<(Seq<char>, nat)>) -> nat
    decreases properties.len(),
{
    if properties.len() == 0 {
        0
    } else {
        record_size(properties.drop_last()) + properties.last().1
    }
}

/// Where in a record the property `name` starts; the last one of that name
/// counts.
pub open spec fn offset_of(properties: Seq<(Seq<char>, nat)>, name: Seq<char>) -> Option<nat>
    decreases properties.len(),
{
    if properties.len() == 0 {
        None
    } else if properties.last().0 == name {
        Some(record_size(properties.drop_last()))
    } else {
        offset_of(properties.drop_last(), name)
    }
}

/// The offset of wanted property `k`.
pub open spec fn wanted_offset(properties: Seq<(Seq<char>, nat)>, k: int) -> Option<nat> {
    offset_of(properties, wanted_names()[k])
}

/// The first wanted property from `k` on that the header does not declare.
pub open spec fn first_missing(properties: Seq<(Seq<char>, nat)>, k: int) -> Option<int>
    decreases WANTED - k,
{
    if k >= WANTED {
        None
    } else if wanted_offset(properties, k) is None {
        Some(k)
    } else {
        first_missing(properties, k + 1)
    }
}

/// The first wanted property from `k` on whose four bytes run past the record.
pub open spec fn first_overrun(properties: Seq<(Seq<char>, nat)>, k: int) -> Option<int>
    decreases WANTED - k,
{
    if k >= WANTED {
        None
    } else if wanted_offset(properties, k)->0 + 4 > record_size(properties) {
        Some(k)
    } else {
        first_overrun(properties, k + 1)
    }
}

/// Wanted property `k` of vertex `i`.
pub open spec fn vertex_word(
    properties: Seq<(Seq<char>, nat)>,
    body: Seq<u8>,
    i: int,
    k: int,
) -> u32 {
    le::word_at(body, i * record_size(properties) + wanted_offset(properties, k)->0)
}

pub open spec fn is_vertex(
    v: PlyVertex,
    properties: Seq<(Seq<char>, nat)>,
    body: Seq<u8>,
    i: int,
) -> bool {
    &&& forall|j: int|
        0 <= j < 3 ==> #[trigger] v.position[j] == vertex_word(properties, body, i, j)
    &&& forall|j: int|
        0 <= j < 3 ==> #[trigger] v.log_scale[j] == vertex_word(properties, body, i, 3 + j)
    &&& forall|j: int|
        0 <= j < 4 ==> #[trigger] v.rotation[j] == vertex_word(properties, body, i, 6 + j)
    &&& v.opacity == vertex_word(properties, body, i, 10)
    &&& forall|j: int| 0 <= j < 3 ==> #[trigger] v.dc[j] == vertex_word(properties, body, i, 11 + j)
}

/// Reads one little-endian word per wanted property from the record at `at`.
fn read_vertex(body: &[u8], at: usize, offsets: &[usize]) -> (v: PlyVertex)
    requires
        offsets@.len() == WANTED,
        forall|k: int| 0 <= k < WANTED ==> at + #[trigger] offsets@[k] + 4 <= body.len(),
    ensures
        forall|j: int|
            0 <= j < 3 ==> #[trigger] v.position[j] == le::word_at(body@, at + offsets@[j]),
        forall|j: int|
            0 <= j < 3 ==> #[trigger] v.log_scale[j] == le::word_at(body@, at + offsets@[3 + j]),
        forall|j: int|
            0 <= j < 4 ==> #[trigger] v.rotation[j] == le::word_at(body@, at + offsets@[6 + j]),
        v.opacity == le::word_at(body@, at + offsets@[10]),
        forall|j: int|
            0 <= j < 3 ==> #[trigger] v.dc[j] == le::word_at(body@, at + offsets@[11 + j]),
{
    PlyVertex {
        position: [
            le::read_word(body, at + offsets[0]),
            le::read_word(body, at + offsets[1]),
            le::read_word(body, at + offsets[2]),
        ],
        log_scale: [
            le::read_word(body, at + offsets[3]),
            le::read_word(body, at + offsets[4]),
            le::read_word(body, at + offsets[5]),
        ],
        rotation: [
            le::read_word(body, at + offsets[6]),
            le::read_word(body, at + offsets[7]),
            le::read_word(body, at + offsets[8]),
            le::read_word(body, at + offsets[9]),
        ],
        opacity: le::read_word(body, at + offsets[10]),
        dc: [
            le::read_word(body, at + offsets[11]),
            le::read_word(body, at + offsets[12]),
            le::read_word(body, at + offsets[13]),
        ],
    }
}

impl PlyHeader {
    /// Size in bytes of one vertex record.
    pub fn record_bytes(&self) -> (n: usize)
        requires
            self.fits(),
        ensures
            n == record_size(self@.properties),
    {
        let mut n: usize = 0;
        let ghost list = self@.properties;
        assert(list.take(0) =~= Seq::empty());
        for i in 0..self.properties.len()
            invariant
                self.fits(),
                list == self@.properties,
                n == record_size(list.take(i as int)),
                n <= 8 * i,
        {
            proof {
                assert(list.take(i + 1).drop_last() =~= list.take(i as int));
                assert(list[i as int].1 == self.properties@[i as int].size);
            }
            n += self.properties[i].size;
        }
        assert(list.take(list.len() as int) =~= list);
        n
    }

    /// Where in a record the property `name` starts.
    pub fn offset(&self, name: &str) -> (r: Option<usize>)
        requires
            self.fits(),
        ensures
            match r {
                Some(at) => offset_of(self@.properties, name@) == Some(at as nat),
                None => offset_of(self@.properties, name@) is None,
            },
    {
        let mut n: usize = 0;
        let mut found: Option<usize> = None;
        let ghost list = self@.properties;
        assert(list.take(0) =~= Seq::empty());
        for i in 0..self.properties.len()
            invariant
                self.fits(),
                list == self@.properties,
                n == record_size(list.take(i as int)),
                n <= 8 * i,
                match found {
                    Some(at) => offset_of(list.take(i as int), name@) == Some(at as nat),
                    None => offset_of(list.take(i as int), name@) is None,
                },
        {
            proof {
                assert(list.take(i + 1).drop_last() =~= list.take(i as int));
                assert(list[i as int].0 == self.properties@[i as int].name@);
                assert(list[i as int].1 == self.properties@[i as int].size);
            }
            let own = text::chars_of(self.properties[i].name.as_str());
            if text::equals(own.as_slice(), name) {
                found = Some(n);
            }
            n += self.properties[i].size;
        }
        assert(list.take(list.len() as int) =~= list);
        found
    }
}

pub open spec fn end_marker() -> Seq<u8> {
    seq![101u8, 110u8, 100u8, 95u8, 104u8, 101u8, 97u8, 100u8, 101u8, 114u8, 10u8]
}

/// Whether `end_header` and a line feed stand at `p`, in whatever line that is.
pub open spec fn marker_at(bytes: Seq<u8>, p: int) -> bool {
    0 <= p && p + end_marker().len() <= bytes.len() && bytes.subrange(
        p,
        p + end_marker().len(),
    ) == end_marker()
}

/// Where the first `end_header` line at or after `p` ends.
pub open spec fn header_end(bytes: Seq<u8>, p: int) -> Option<int>
    decreases bytes.len() - p,
{
    if p + end_marker().len() > bytes.len() {
        None
    } else if marker_at(bytes, p) {
        Some(p + end_marker().len())
    } else {
        header_end(bytes, p + 1)
    }
}

/// Where the body of a `.ply` file starts: past its first `end_header` line.
pub fn find_end_header(bytes: &[u8]) -> (r: Option<usize>)
    ensures
        match r {
            Some(end) => header_end(bytes@, 0) == Some(end as int) && end <= bytes@.len(),
            None => header_end(bytes@, 0) is None,
        },
{
    let marker: [u8; 11] = [101, 110, 100, 95, 104, 101, 97, 100, 101, 114, 10];
    let mut p: usize = 0;
    assert(marker@ =~= end_marker());
    while p <= bytes.len() && bytes.len() - p >= 11
        invariant
            marker@ == end_marker(),
            p <= bytes.len(),
            header_end(bytes@, 0) == header_end(bytes@, p as int),
        decreases bytes.len() - p,
    {
        let mut k: usize = 0;
        while k < 11 && bytes[p + k] == marker[k as usize]
            invariant
                k <= 11,
                p + 11 <= bytes.len(),
                marker@ == end_marker(),
                forall|j: int| 0 <= j < k ==> bytes@[p + j] == #[trigger] marker@[j],
            decreases 11 - k,
        {
            k += 1;
        }
        if k == 11 {
            assert(bytes@.subrange(p as int, p + 11) =~= end_marker());
            return Some(p + 11);
        }
        assert(bytes@.subrange(p as int, p + 11)[k as int] != end_marker()[k as int]);
        p += 1;
    }
    None
}

pub open spec fn missing_message(name: Seq<char>) -> Seq<char> {
    "PLY file is missing required property '"@ + name + "'"@
}

pub open spec fn short_message(body: nat, count: nat, record: nat) -> Seq<char> {
    "PLY body is "@ + text::decimal(body) + " bytes, expected at least "@ + text::decimal(
        record * count,
    ) + " for "@ + text::decimal(count) + " vertices at "@ + text::decimal(record) + " bytes each"@
}

pub open spec fn overrun_message(name: Seq<char>, record: nat) -> Seq<char> {
    "PLY property '"@ + name + "' runs past the "@ + text::decimal(record) + "-byte record"@
}

/// What reading a body under a header gives: the message of the refusal, or
/// `None` where the vertices can be read.
pub open spec fn body_refusal(h: HeaderModel, body: Seq<u8>) -> Option<Seq<char>> {
    if !h.binary_little_endian {
        Some(
            "only 'binary_little_endian' PLY files are supported — ASCII/big-endian PLY isn't handled"@,
        )
    } else if h.vertex_count == 0 {
        Some("no 'element vertex N' found (or N was 0)"@)
    } else if let Some(k) = first_missing(h.properties, 0) {
        Some(missing_message(wanted_names()[k]))
    } else if body.len() < record_size(h.properties) * h.vertex_count {
        Some(short_message(body.len(), h.vertex_count as nat, record_size(h.properties)))
    } else if let Some(k) = first_overrun(h.properties, 0) {
        Some(overrun_message(wanted_names()[k], record_size(h.properties)))
    } else {
        None
    }
}

/// Whether `r` is what a `.ply` file holding `bytes` loads as.
pub open spec fn is_ply_result(bytes: Seq<u8>, r: Result<Vec<PlyVertex>, String>) -> bool {
    match header_end(bytes, 0) {
        None => r matches Err(message) && message@
            == "no 'end_header' line found — not a PLY file?"@,
        Some(end) => if !vstd::utf8::valid_utf8(bytes.take(end)) {
            r matches Err(message) && message@ == "PLY header isn't valid UTF-8/ASCII"@
        } else {
            match header_of(vstd::utf8::decode_utf8(bytes.take(end))) {
                Err(expected) => r matches Err(message) && message@ == expected,
                Ok(h) => match body_refusal(h, bytes.skip(end)) {
                    Some(expected) => r matches Err(message) && message@ == expected,
                    None => {
                        &&& r matches Ok(vertices)
                        &&& vertices@.len() == h.vertex_count
                        &&& forall|i: int|
                            0 <= i < h.vertex_count ==> is_vertex(
                                #[trigger] vertices@[i],
                                h.properties,
                                bytes.skip(end),
                                i,
                            )
                    },
                },
            }
        },
    }
}

/// The offset of each wanted property, or the message naming the first that
/// is missing.
fn wanted_offsets(header: &PlyHeader) -> (r: Result<Vec<usize>, String>)
    requires
        header.fits(),
    ensures
        match r {
            Ok(offsets) => {
                &&& first_missing(header@.properties, 0) is None
                &&& offsets@.len() == WANTED
                &&& forall|k: int|
                    0 <= k < WANTED ==> wanted_offset(header@.properties, k) == Some(
                        #[trigger] offsets@[k] as nat,
                    )
            },
            Err(message) => {
                &&& first_missing(header@.properties, 0) is Some
                &&& message@ == missing_message(
                    wanted_names()[first_missing(header@.properties, 0)->0],
                )
            },
        },
{
    let mut offsets: Vec<usize> = Vec::new();
    while offsets.len() < WANTED
        invariant
            header.fits(),
            offsets@.len() <= WANTED,
            first_missing(header@.properties, 0) == first_missing(
                header@.properties,
                offsets@.len() as int,
            ),
            forall|k: int|
                0 <= k < offsets@.len() ==> wanted_offset(header@.properties, k) == Some(
                    #[trigger] offsets@[k] as nat,
                ),
        decreases WANTED - offsets@.len(),
    {
        let name = wanted_name(offsets.len());
        match header.offset(name) {
            Some(at) => {
                offsets.push(at);
            },
            None => {
                let mut message = "PLY file is missing required property '".to_string();
                message.append(name);
                message.append("'");
                return Err(message);
            },
        }
    }
    Ok(offsets)
}

/// Refuses offsets whose four bytes do not lie inside a record.
fn check_overrun(header: &PlyHeader, offsets: &[usize], record: usize) -> (r: Result<(), String>)
    requires
        header.fits(),
        record == record_size(header@.properties),
        offsets@.len() == WANTED,
        forall|k: int|
            0 <= k < WANTED ==> wanted_offset(header@.properties, k) == Some(
                #[trigger] offsets@[k] as nat,
            ),
    ensures
        match r {
            Ok(_) => {
                &&& first_overrun(header@.properties, 0) is None
                &&& forall|k: int| 0 <= k < WANTED ==> #[trigger] offsets@[k] + 4 <= record
            },
            Err(message) => {
                &&& first_overrun(header@.properties, 0) is Some
                &&& message@ == overrun_message(
                    wanted_names()[first_overrun(header@.properties, 0)->0],
                    record as nat,
                )
            },
        },
{
    let mut k: usize = 0;
    while k < WANTED
        invariant
            record == record_size(header@.properties),
            offsets@.len() == WANTED,
            forall|j: int|
                0 <= j < WANTED ==> wanted_offset(header@.properties, j) == Some(
                    #[trigger] offsets@[j] as nat,
                ),
            0 <= k <= WANTED,
            first_overrun(header@.properties, 0) == first_overrun(header@.properties, k as int),
            forall|j: int| 0 <= j < k ==> #[trigger] offsets@[j] + 4 <= record,
        decreases WANTED - k,
    {
        if record < 4 || offsets[k] > record - 4 {
            let mut message = "PLY property '".to_string();
            message.append(wanted_name(k));
            message.append("' runs past the ");
            text::push_decimal(&mut message, record as u128);
            message.append("-byte record");
            return Err(message);
        }
        k += 1;
    }
    Ok(())
}

/// Reads `count` consecutive records.
fn read_vertices(header: &PlyHeader, body: &[u8], offsets: &[usize], record: usize) -> (vertices:
    Vec<PlyVertex>)
    requires
        record == record_size(header@.properties),
        record * header.vertex_count <= body.len(),
        offsets@.len() == WANTED,
        forall|k: int|
            0 <= k < WANTED ==> wanted_offset(header@.properties, k) == Some(
                #[trigger] offsets@[k] as nat,
            ),
        forall|k: int| 0 <= k < WANTED ==> #[trigger] offsets@[k] + 4 <= record,
    ensures
        vertices@.len() == header.vertex_count,
        forall|i: int|
            0 <= i < header.vertex_count ==> is_vertex(
                #[trigger] vertices@[i],
                header@.properties,
                body@,
                i,
            ),
{
    let count = header.vertex_count;
    let mut vertices: Vec<PlyVertex> = Vec::new();
    let mut at: usize = 0;
    while vertices.len() < count
        invariant
            count == header.vertex_count,
            vertices@.len() <= count,
            at == vertices@.len() * record,
            record == record_size(header@.properties),
            record * count <= body.len(),
            offsets@.len() == WANTED,
            forall|k: int|
                0 <= k < WANTED ==> wanted_offset(header@.properties, k) == Some(
                    #[trigger] offsets@[k] as nat,
                ),
            forall|k: int| 0 <= k < WANTED ==> #[trigger] offsets@[k] + 4 <= record,
            forall|i: int|
                0 <= i < vertices@.len() ==> is_vertex(
                    #[trigger] vertices@[i],
                    header@.properties,
                    body@,
                    i,
                ),
        decreases count - vertices@.len(),
    {
        let ghost done = vertices@.len() as int;
        assert((done + 1) * record <= record * count) by (nonlinear_arith)
            requires
                0 <= done < count,
                0 <= record,
        ;
        assert((done + 1) * record == done * record + record) by (nonlinear_arith);
        assert forall|k: int| 0 <= k < WANTED implies at + #[trigger] offsets@[k] + 4
            <= body.len() by {}
        let v = read_vertex(body, at, offsets);
        assert(is_vertex(v, header@.properties, body@, done)) by {
            assert forall|k: int| 0 <= k < WANTED implies #[trigger] vertex_word(
                header@.properties,
                body@,
                done,
                k,
            ) == le::word_at(body@, at + offsets@[k]) by {
                assert(wanted_offset(header@.properties, k) == Some(offsets@[k] as nat));
            }
        }
        vertices.push(v);
        at += record;
    }
    vertices
}

/// Reads a splat cloud in `.ply` form: a text header that ends in
/// `end_header`, then little-endian vertex records whose layout the header
/// declares. Properties that a splat does not need are skipped.
pub fn load_ply(bytes: &[u8]) -> (r: Result<Vec<PlyVertex>, String>)
    ensures
        is_ply_result(bytes@, r),
{
    let end: usize = match find_end_header(bytes) {
        Some(end) => end,
        None => {
            return Err("no 'end_header' line found — not a PLY file?".to_string());
        },
    };
    let head = vstd::slice::slice_subrange(bytes, 0, end);
    let body = vstd::slice::slice_subrange(bytes, end, bytes.len());
    proof {
        assert(head@ =~= bytes@.take(end as int));
        assert(body@ =~= bytes@.skip(end as int));
    }
    let header_text = match std::str::from_utf8(head) {
        Ok(header_text) => header_text,
        Err(_) => {
            return Err("PLY header isn't valid UTF-8/ASCII".to_string());
        },
    };
    let header = match parse_header(header_text) {
        Ok(header) => header,
        Err(message) => {
            return Err(message);
        },
    };
    if !header.binary_little_endian {
        return Err(
            "only 'binary_little_endian' PLY files are supported — ASCII/big-endian PLY isn't handled".to_string(),
        );
    }
    if header.vertex_count == 0 {
        return Err("no 'element vertex N' found (or N was 0)".to_string());
    }
    let record: usize = header.record_bytes();
    let offsets = match wanted_offsets(&header) {
        Ok(offsets) => offsets,
        Err(message) => {
            return Err(message);
        },
    };
    assert(record * header.vertex_count <= u64::MAX * u64::MAX) by (nonlinear_arith)
        requires
            record <= u64::MAX,
            header.vertex_count <= u64::MAX,
    ;
    let needed: u128 = record as u128 * header.vertex_count as u128;
    if (body.len() as u128) < needed {
        let mut message = "PLY body is ".to_string();
        text::push_decimal(&mut message, body.len() as u128);
        message.append(" bytes, expected at least ");
        text::push_decimal(&mut message, needed);
        message.append(" for ");
        text::push_decimal(&mut message, header.vertex_count as u128);
        message.append(" vertices at ");
        text::push_decimal(&mut message, record as u128);
        message.append(" bytes each");
        return Err(message);
    }
    match check_overrun(&header, offsets.as_slice(), record) {
        Ok(_) => Ok(read_vertices(&header, body, offsets.as_slice(), record)),
        Err(message) => Err(message),
    }
}

// ---------------------------------------------------------------------------
// dispatch on the file extension
// ---------------------------------------------------------------------------

/// What a splat file holds, as stored.
#[derive(Debug)]
pub enum SplatFile {
    Splats(Vec<GaussianSplat>),
    Vertices(Vec<PlyVertex>),
}

pub open spec fn extension_message(ext: Seq<char>) -> Seq<char> {
    "unsupported artifact extension '."@ + ext + "' — only .splat and .ply are handled"@
}

/// Whether `r` is what `bytes`, read from a path with this extension, load as.
pub open spec fn is_file_result(
    extension: Option<Seq<char>>,
    bytes: Seq<u8>,
    r: Result<SplatFile, String>,
) -> bool {
    match extension {
        None => r matches Err(message) && message@
            == "artifact path has no file extension to dispatch on"@,
        Some(ext) => if text::lower(ext) == "splat"@ {
            match r {
                Ok(SplatFile::Splats(splats)) => is_splat_result(bytes, Ok(splats)),
                Ok(_) => false,
                Err(message) => is_splat_result(bytes, Err(message)),
            }
        } else if text::lower(ext) == "ply"@ {
            match r {
                Ok(SplatFile::Vertices(vertices)) => is_ply_result(bytes, Ok(vertices)),
                Ok(_) => false,
                Err(message) => is_ply_result(bytes, Err(message)),
            }
        } else {
            r matches Err(message) && message@ == extension_message(text::lower(ext))
        },
    }
}

/// Loads the contents of a splat file by the extension of its path, in either
/// case.
pub fn load_by_extension(extension: Option<&str>, bytes: &[u8]) -> (r: Result<SplatFile, String>)
    ensures
        is_file_result(
            match extension {
                Some(ext) => Some(ext@),
                None => None,
            },
            bytes@,
            r,
        ),
{
    let ext = match extension {
        Some(ext) => ext,
        None => {
            return Err("artifact path has no file extension to dispatch on".to_string());
        },
    };
    let chars = text::chars_of(ext);
    let ext = text::lower_chars(chars.as_slice());
    if text::equals(ext.as_slice(), "splat") {
        match load_splat(bytes) {
            Ok(splats) => Ok(SplatFile::Splats(splats)),
            Err(message) => Err(message),
        }
    } else if text::equals(ext.as_slice(), "ply") {
        match load_ply(bytes) {
            Ok(vertices) => Ok(SplatFile::Vertices(vertices)),
            Err(message) => Err(message),
        }
    } else {
        let name = text::text_of(ext.as_slice());
        let mut message = "unsupported artifact extension '.".to_string();
        message.append(name.as_str());
        message.append("' — only .splat and .ply are handled");
        Err(message)
    }
}

// ---------------------------------------------------------------------------
// laws
// ---------------------------------------------------------------------------

/// Two `.splat` files put end to end load as the splats of the first followed
/// by those of the second.
pub proof fn law_splat_files_concatenate(
    a: Seq<u8>,
    b: Seq<u8>,
    from_a: Vec<GaussianSplat>,
    from_b: Vec<GaussianSplat>,
    r: Result<Vec<GaussianSplat>, String>,
)
    requires
        is_splat_result(a, Ok(from_a)),
        is_splat_result(b, Ok(from_b)),
        is_splat_result(a + b, r),
    ensures
        r is Ok,
        r->Ok_0@ == from_a@ + from_b@,
{
    let splats = r->Ok_0@;
    assert((a + b).len() % 32 == 0);
    assert forall|i: int| 0 <= i < splats.len() implies splats[i] == (from_a@ + from_b@)[i] by {
        assert(splats[i] == record_splat(a + b, 32 * i));
        if i < from_a@.len() {
            assert forall|j: int| 0 <= j < 32 implies #[trigger] (a + b)[32 * i + j] == a[32 * i
                + j] by {}
            assert(from_a@[i] == record_splat(a, 32 * i));
            lemma_record_splat(a + b, 32 * i, a, 32 * i);
        } else {
            let k = i - from_a@.len();
            assert forall|j: int| 0 <= j < 32 implies #[trigger] (a + b)[32 * i + j] == b[32 * k
                + j] by {}
            assert(from_b@[k] == record_splat(b, 32 * k));
            lemma_record_splat(a + b, 32 * i, b, 32 * k);
        }
    }
    assert(splats =~= from_a@ + from_b@);
}

proof fn lemma_record_splat(a: Seq<u8>, at: int, b: Seq<u8>, bt: int)
    requires
        forall|j: int| 0 <= j < 32 ==> #[trigger] a[at + j] == b[bt + j],
    ensures
        record_splat(a, at) == record_splat(b, bt),
{
    assert forall|j: int| 0 <= j <= 28 implies #[trigger] le::word_at(a, at + j) == le::word_at(
        b,
        bt + j,
    ) by {
        assert(a[at + (j + 1)] == b[bt + (j + 1)]);
        assert(a[at + (j + 2)] == b[bt + (j + 2)]);
        assert(a[at + (j + 3)] == b[bt + (j + 3)]);
    }
    assert(a[at + 0] == b[bt + 0]);
    assert(le::word_at(a, at + 0) == le::word_at(b, bt + 0));
}

/// The body starts past the first `end_header` line of the file, wherever
/// later ones stand.
pub proof fn law_first_end_header_counts(bytes: Seq<u8>)
    ensures
        match header_end(bytes, 0) {
            Some(end) => {
                &&& marker_at(bytes, end - end_marker().len())
                &&& forall|q: int| q < end - end_marker().len() ==> !#[trigger] marker_at(bytes, q)
            },
            None => forall|q: int| !#[trigger] marker_at(bytes, q),
        },
{
    lemma_header_end_from(bytes, 0);
}

proof fn lemma_header_end_from(bytes: Seq<u8>, p: int)
    requires
        0 <= p,
    ensures
        match header_end(bytes, p) {
            Some(end) => {
                &&& marker_at(bytes, end - end_marker().len())
                &&& forall|q: int|
                    p <= q < end - end_marker().len() ==> !#[trigger] marker_at(bytes, q)
            },
            None => forall|q: int| p <= q ==> !#[trigger] marker_at(bytes, q),
        },
    decreases bytes.len() - p,
{
    if p + end_marker().len() <= bytes.len() && !marker_at(bytes, p) {
        lemma_header_end_from(bytes, p + 1);
    }
}

/// A header line that is none of `format`, `element` and `property`, such as
/// a comment, changes nothing wherever it stands.
pub proof fn law_other_header_lines_do_nothing(
    before: Seq<Seq<char>>,
    line: Seq<char>,
    after: Seq<Seq<char>>,
)
    requires
        !text::begins_with(text::trim(line), "format "@),
        !text::begins_with(text::trim(line), "element "@),
        !text::begins_with(text::trim(line), "property "@),
    ensures
        read_lines(before + seq![line] + after) == read_lines(before + after),
    decreases after.len(),
{
    if after.len() == 0 {
        assert((before + seq![line] + after).drop_last() =~= before);
        assert((before + seq![line] + after).last() == line);
        assert(before + after =~= before);
    } else {
        assert((before + seq![line] + after).drop_last() =~= before + seq![line]
            + after.drop_last());
        assert((before + after).drop_last() =~= before + after.drop_last());
        law_other_header_lines_do_nothing(before, line, after.drop_last());
    }
}

/// A property that a splat does not need is skipped: a record with it between
/// the others gives every other property the word that it has without it. The
/// word must lie on one side of the place where the extra property stands.
pub proof fn law_unwanted_properties_are_skipped(
    before: Seq<(Seq<char>, nat)>,
    extra: (Seq<char>, nat),
    after: Seq<(Seq<char>, nat)>,
    name: Seq<char>,
    record_before: Seq<u8>,
    record_extra: Seq<u8>,
    record_after: Seq<u8>,
)
    requires
        extra.0 != name,
        record_before.len() == record_size(before),
        record_extra.len() == extra.1,
        record_after.len() == record_size(after),
        offset_of(before + after, name) matches Some(at) && at + 4 <= record_size(before + after)
            && (offset_of(after, name) is Some || at + 4 <= record_size(before)),
    ensures
        offset_of(before + seq![extra] + after, name) is Some,
        le::word_at(
            record_before + record_extra + record_after,
            offset_of(before + seq![extra] + after, name)->0 as int,
        ) == le::word_at(record_before + record_after, offset_of(before + after, name)->0 as int),
{
    let wide = before + seq![extra];
    assert(wide.drop_last() =~= before);
    lemma_offset_in_concatenation(before, after, name);
    lemma_offset_in_concatenation(wide, after, name);
}

proof fn lemma_offset_in_concatenation(
    a: Seq<(Seq<char>, nat)>,
    b: Seq<(Seq<char>, nat)>,
    name: Seq<char>,
)
    ensures
        record_size(a + b) == record_size(a) + record_size(b),
        offset_of(a + b, name) == match offset_of(b, name) {
            Some(at) => Some(record_size(a) + at),
            None => offset_of(a, name),
        },
    decreases b.len(),
{
    if b.len() == 0 {
        assert(a + b =~= a);
    } else {
        assert((a + b).drop_last() =~= a + b.drop_last());
        lemma_offset_in_concatenation(a, b.drop_last(), name);
    }
}

/// The property that a header line declares under the vertex element, if it is
/// a line that declares one.
pub open spec fn declared(line: Seq<char>) -> Option<(Seq<char>, nat)> {
    match header_line(HeaderModel { in_vertex: true, ..empty_header() }, line) {
        Ok(h) => if h.properties.len() == 1 {
            Some(h.properties[0])
        } else {
            None
        },
        Err(_) => None,
    }
}

/// The properties that lines declare, in order.
pub open spec fn declarations(lines: Seq<Seq<char>>) -> Seq<(Seq<char>, nat)> {
    lines.map_values(|line: Seq<char>| declared(line)->0)
}

/// Whether a header line, by its keyword, is about a property.
pub open spec fn is_property_line(line: Seq<char>) -> bool {
    let line = text::trim(line);
    &&& !text::begins_with(line, "format "@)
    &&& !text::begins_with(line, "element "@)
    &&& text::begins_with(line, "property "@)
}

/// Whether a property line after these lines is about the vertex: the last
/// element that they name is the vertex.
pub open spec fn in_vertex_after(lines: Seq<Seq<char>>) -> bool
    decreases lines.len(),
{
    if lines.len() == 0 {
        false
    } else {
        let line = text::trim(lines.last());
        if !text::begins_with(line, "format "@) && text::begins_with(line, "element "@) {
            text::first_word(line.skip("element "@.len() as int)) == Some("vertex"@)
        } else {
            in_vertex_after(lines.drop_last())
        }
    }
}

/// The lines of a header that are about a property of the vertex, in order.
pub open spec fn vertex_property_lines(lines: Seq<Seq<char>>) -> Seq<Seq<char>>
    decreases lines.len(),
{
    if lines.len() == 0 {
        Seq::empty()
    } else {
        let before = vertex_property_lines(lines.drop_last());
        if in_vertex_after(lines.drop_last()) && is_property_line(lines.last()) {
            before.push(lines.last())
        } else {
            before
        }
    }
}

/// The other lines of a header, in order.
pub open spec fn other_lines(lines: Seq<Seq<char>>) -> Seq<Seq<char>>
    decreases lines.len(),
{
    if lines.len() == 0 {
        Seq::empty()
    } else {
        let before = other_lines(lines.drop_last());
        if in_vertex_after(lines.drop_last()) && is_property_line(lines.last()) {
            before
        } else {
            before.push(lines.last())
        }
    }
}

/// The lines of a file's header that ends at `end`.
pub open spec fn header_lines(file: Seq<u8>, end: int) -> Seq<Seq<char>> {
    text::lines(vstd::utf8::decode_utf8(file.take(end)))
}

/// The bytes of property `j` in record `i`.
pub open spec fn field(
    properties: Seq<(Seq<char>, nat)>,
    body: Seq<u8>,
    i: int,
    j: int,
) -> Seq<u8> {
    let at = i * record_size(properties) + record_size(properties.take(j));
    body.subrange(at, at + properties[j].1)
}

/// Whether two bodies hold the same under every wanted name: the second has a
/// property of each wanted name, and wherever both have a property of such a
/// name, it is four bytes wide and holds the same bytes in every record. The
/// order of the properties, and what others there are, is free.
pub open spec fn same_fields(
    a: Seq<(Seq<char>, nat)>,
    body_a: Seq<u8>,
    b: Seq<(Seq<char>, nat)>,
    body_b: Seq<u8>,
    count: int,
) -> bool {
    &&& forall|k: int|
        0 <= k < WANTED ==> exists|j: int|
            0 <= j < b.len() && (#[trigger] b[j]).0 == #[trigger] wanted_names()[k]
    &&& forall|k: int, p: int, q: int|
        0 <= k < WANTED && 0 <= p < a.len() && 0 <= q < b.len() && (#[trigger] a[p]).0
            == #[trigger] wanted_names()[k] && (#[trigger] b[q]).0 == wanted_names()[k] ==> {
            &&& a[p].1 == 4
            &&& b[q].1 == 4
            &&& forall|i: int|
                0 <= i < count ==> #[trigger] field(a, body_a, i, p) == field(b, body_b, i, q)
        }
}

/// The layout of the records does not matter. Two files whose headers differ in
/// the lines alone that declare the vertex properties, and whose records hold
/// the same bytes under each wanted name, load as the same vertices: the
/// property lines, and with them the fields of every record, may stand in
/// another order and anywhere among the other lines, and properties that a
/// splat does not need may be there in one and not in the other, of any scalar
/// type and with any bytes.
pub proof fn law_layouts_load_alike(
    a: Seq<u8>,
    b: Seq<u8>,
    end_a: int,
    end_b: int,
    from_a: Vec<PlyVertex>,
    r: Result<Vec<PlyVertex>, String>,
)
    requires
        is_ply_result(a, Ok(from_a)),
        is_ply_result(b, r),
        header_end(a, 0) == Some(end_a),
        header_end(b, 0) == Some(end_b),
        vstd::utf8::valid_utf8(b.take(end_b)),
        other_lines(header_lines(a, end_a)) == other_lines(header_lines(b, end_b)),
        forall|i: int|
            0 <= i < vertex_property_lines(header_lines(b, end_b)).len() ==> declared(
                #[trigger] vertex_property_lines(header_lines(b, end_b))[i],
            ) is Some,
        b.skip(end_b).len() >= record_size(
            declarations(vertex_property_lines(header_lines(b, end_b))),
        ) * from_a@.len(),
        same_fields(
            declarations(vertex_property_lines(header_lines(a, end_a))),
            a.skip(end_a),
            declarations(vertex_property_lines(header_lines(b, end_b))),
            b.skip(end_b),
            from_a@.len() as int,
        ),
    ensures
        r is Ok,
        r->Ok_0@ == from_a@,
{
    let lines_a = header_lines(a, end_a);
    let lines_b = header_lines(b, end_b);
    let props_a = declarations(vertex_property_lines(lines_a));
    let props_b = declarations(vertex_property_lines(lines_b));
    let body_a = a.skip(end_a);
    let body_b = b.skip(end_b);
    let ha = read_lines(lines_a)->Ok_0;
    lemma_read_declares(lines_a);
    lemma_read_in_parts(lines_a);
    lemma_read_in_parts(lines_b);
    let hb = HeaderModel { properties: props_b, ..ha };
    assert(read_lines(lines_b) == Ok::<HeaderModel, Seq<char>>(hb));
    let count = ha.vertex_count as int;
    assert(from_a@.len() == count);
    lemma_nothing_missing(props_a, 0);
    assert forall|k: int| 0 <= k < WANTED implies #[trigger] wanted_offset(props_b, k) is Some
        && wanted_offset(props_b, k)->0 + 4 <= record_size(props_b) by {
        let j = choose|j: int|
            0 <= j < props_b.len() && (#[trigger] props_b[j]).0 == wanted_names()[k];
        lemma_named_has_offset(props_b, wanted_names()[k], j);
        let q = lemma_offset_is_start(props_b, wanted_names()[k]);
        assert(wanted_offset(props_a, k) is Some);
        let p = lemma_offset_is_start(props_a, wanted_names()[k]);
        assert(props_a[p].0 == wanted_names()[k] && props_b[q].0 == wanted_names()[k]);
        lemma_record_prefix(props_b, q);
    }
    lemma_all_found(props_b, 0);
    assert(body_refusal(hb, body_b) is None) by {
        assert(record_size(props_b) * count == record_size(props_b) * from_a@.len());
    }
    let from_b = r->Ok_0@;
    assert forall|i: int| 0 <= i < count implies from_b[i] == from_a@[i] by {
        let va = from_a@[i];
        let vb = from_b[i];
        assert(is_vertex(va, props_a, body_a, i));
        assert(is_vertex(vb, props_b, body_b, i));
        assert forall|k: int| 0 <= k < WANTED implies #[trigger] vertex_word(props_b, body_b, i, k)
            == vertex_word(props_a, body_a, i, k) by {
            assert(wanted_offset(props_b, k) is Some);
            assert(wanted_offset(props_a, k) is Some);
            lemma_same_word(props_a, body_a, props_b, body_b, count, i, k);
        }
        assert forall|j: int| 0 <= j < 3 implies #[trigger] vb.position[j] == va.position[j] by {
            assert(vertex_word(props_b, body_b, i, j) == vertex_word(props_a, body_a, i, j));
        }
        assert forall|j: int| 0 <= j < 3 implies #[trigger] vb.log_scale[j] == va.log_scale[j] by {
            assert(vertex_word(props_b, body_b, i, 3 + j) == vertex_word(props_a, body_a, i, 3 + j));
        }
        assert forall|j: int| 0 <= j < 4 implies #[trigger] vb.rotation[j] == va.rotation[j] by {
            assert(vertex_word(props_b, body_b, i, 6 + j) == vertex_word(props_a, body_a, i, 6 + j));
        }
        assert forall|j: int| 0 <= j < 3 implies #[trigger] vb.dc[j] == va.dc[j] by {
            assert(vertex_word(props_b, body_b, i, 11 + j) == vertex_word(
                props_a,
                body_a,
                i,
                11 + j,
            ));
        }
        assert(vertex_word(props_b, body_b, i, 10) == vertex_word(props_a, body_a, i, 10));
        assert(vb.position =~= va.position);
        assert(vb.log_scale =~= va.log_scale);
        assert(vb.rotation =~= va.rotation);
        assert(vb.dc =~= va.dc);
    }
    assert(from_b =~= from_a@);
}

/// A line that declares a property does so under every vertex header.
proof fn lemma_declared_line(h: HeaderModel, line: Seq<char>)
    requires
        h.in_vertex,
        declared(line) is Some,
    ensures
        header_line(h, line) == Ok::<HeaderModel, Seq<char>>(
            HeaderModel { properties: h.properties.push(declared(line)->0), ..h },
        ),
{
}

/// In a header that can be read, every line about a vertex property declares
/// one.
proof fn lemma_read_declares(lines: Seq<Seq<char>>)
    requires
        read_lines(lines) is Ok,
    ensures
        read_lines(lines)->Ok_0.in_vertex == in_vertex_after(lines),
        forall|i: int|
            0 <= i < vertex_property_lines(lines).len() ==> declared(
                #[trigger] vertex_property_lines(lines)[i],
            ) is Some,
    decreases lines.len(),
{
    if lines.len() > 0 {
        let before = lines.drop_last();
        lemma_read_declares(before);
        let h = read_lines(before)->Ok_0;
        if h.in_vertex && is_property_line(lines.last()) {
            let reached = header_line(h, lines.last())->Ok_0;
            assert(declared(lines.last()) is Some);
        }
    }
}

/// Reading a header comes to reading its other lines, with the properties of
/// the vertex beside.
proof fn lemma_read_in_parts(lines: Seq<Seq<char>>)
    requires
        forall|i: int|
            0 <= i < vertex_property_lines(lines).len() ==> declared(
                #[trigger] vertex_property_lines(lines)[i],
            ) is Some,
    ensures
        match read_lines(other_lines(lines)) {
            Ok(h) => {
                &&& h.in_vertex == in_vertex_after(lines)
                &&& h.properties.len() == 0
                &&& read_lines(lines) == Ok::<HeaderModel, Seq<char>>(
                    HeaderModel {
                        properties: declarations(vertex_property_lines(lines)),
                        ..h
                    },
                )
            },
            Err(message) => read_lines(lines) == Err::<HeaderModel, Seq<char>>(message),
        },
    decreases lines.len(),
{
    let own = vertex_property_lines(lines);
    let rest = other_lines(lines);
    if lines.len() == 0 {
        assert(declarations(own) =~= Seq::empty());
    } else {
        let before = lines.drop_last();
        let line = lines.last();
        let own_before = vertex_property_lines(before);
        assert forall|i: int| 0 <= i < own_before.len() implies declared(
            #[trigger] own_before[i],
        ) is Some by {
            assert(own[i] == own_before[i]);
        }
        lemma_read_in_parts(before);
        if in_vertex_after(before) && is_property_line(line) {
            assert(own[own.len() - 1] == line);
            assert(declared(line) is Some);
            assert(declarations(own) =~= declarations(own_before).push(declared(line)->0));
            if read_lines(rest) is Ok {
                lemma_declared_line(read_lines(before)->Ok_0, line);
            }
        } else {
            assert(rest.drop_last() =~= other_lines(before));
            assert(own == own_before);
        }
    }
}

/// An offset is where some property of that name starts.
proof fn lemma_offset_is_start(properties: Seq<(Seq<char>, nat)>, name: Seq<char>) -> (j: int)
    requires
        offset_of(properties, name) is Some,
    ensures
        0 <= j < properties.len(),
        properties[j].0 == name,
        offset_of(properties, name) == Some(record_size(properties.take(j))),
    decreases properties.len(),
{
    let rest = properties.drop_last();
    if properties.last().0 == name {
        assert(properties.take(properties.len() - 1) =~= rest);
        properties.len() - 1
    } else {
        let j = lemma_offset_is_start(rest, name);
        assert(rest.take(j) =~= properties.take(j));
        j
    }
}

proof fn lemma_named_has_offset(properties: Seq<(Seq<char>, nat)>, name: Seq<char>, j: int)
    requires
        0 <= j < properties.len(),
        properties[j].0 == name,
    ensures
        offset_of(properties, name) is Some,
    decreases properties.len(),
{
    if properties.last().0 != name {
        lemma_named_has_offset(properties.drop_last(), name, j);
    }
}

/// A property ends within the record.
proof fn lemma_record_prefix(properties: Seq<(Seq<char>, nat)>, j: int)
    requires
        0 <= j < properties.len(),
    ensures
        record_size(properties.take(j)) + properties[j].1 <= record_size(properties),
    decreases properties.len(),
{
    if j == properties.len() - 1 {
        assert(properties.take(j) =~= properties.drop_last());
    } else {
        assert(properties.drop_last().take(j) =~= properties.take(j));
        lemma_record_prefix(properties.drop_last(), j);
    }
}

proof fn lemma_nothing_missing(properties: Seq<(Seq<char>, nat)>, k: int)
    requires
        0 <= k,
        first_missing(properties, k) is None,
    ensures
        forall|j: int| k <= j < WANTED ==> #[trigger] wanted_offset(properties, j) is Some,
    decreases WANTED - k,
{
    if k < WANTED {
        lemma_nothing_missing(properties, k + 1);
    }
}

proof fn lemma_all_found(properties: Seq<(Seq<char>, nat)>, k: int)
    requires
        0 <= k,
        forall|j: int|
            k <= j < WANTED ==> #[trigger] wanted_offset(properties, j) is Some && wanted_offset(
                properties,
                j,
            )->0 + 4 <= record_size(properties),
    ensures
        first_missing(properties, k) is None,
        first_overrun(properties, k) is None,
    decreases WANTED - k,
{
    if k < WANTED {
        assert(wanted_offset(properties, k) is Some);
        lemma_all_found(properties, k + 1);
    }
}

/// The same bytes make the same word.
proof fn lemma_same_word(
    a: Seq<(Seq<char>, nat)>,
    body_a: Seq<u8>,
    b: Seq<(Seq<char>, nat)>,
    body_b: Seq<u8>,
    count: int,
    i: int,
    k: int,
)
    requires
        same_fields(a, body_a, b, body_b, count),
        0 <= i < count,
        0 <= k < WANTED,
        wanted_offset(a, k) is Some,
        wanted_offset(b, k) is Some,
        body_a.len() >= record_size(a) * count,
        body_b.len() >= record_size(b) * count,
    ensures
        vertex_word(a, body_a, i, k) == vertex_word(b, body_b, i, k),
{
    let name = wanted_names()[k];
    let p = lemma_offset_is_start(a, name);
    let q = lemma_offset_is_start(b, name);
    assert(a[p].0 == name && b[q].0 == name);
    lemma_record_prefix(a, p);
    lemma_record_prefix(b, q);
    lemma_record_in_body(record_size(a) as int, i, count);
    lemma_record_in_body(record_size(b) as int, i, count);
    let fa = field(a, body_a, i, p);
    let fb = field(b, body_b, i, q);
    assert(fa == fb);
    let at_a = i * record_size(a) + record_size(a.take(p));
    let at_b = i * record_size(b) + record_size(b.take(q));
    assert forall|t: int| 0 <= t < 4 implies #[trigger] body_a[at_a + t] == body_b[at_b + t] by {
        assert(fa[t] == body_a[at_a + t]);
        assert(fb[t] == body_b[at_b + t]);
    }
    assert(body_a[at_a + 0] == body_b[at_b + 0]);
    assert(body_a[at_a + 1] == body_b[at_b + 1]);
    assert(body_a[at_a + 2] == body_b[at_b + 2]);
    assert(body_a[at_a + 3] == body_b[at_b + 3]);
}

proof fn lemma_record_in_body(size: int, i: int, count: int)
    requires
        0 <= i < count,
        0 <= size,
    ensures
        0 <= i * size,
        i * size + size <= size * count,
{
    assert(0 <= i * size) by (nonlinear_arith)
        requires
            0 <= i,
            0 <= size,
    ;
    assert(i * size + size <= size * count) by (nonlinear_arith)
        requires
            i + 1 <= count,
            0 <= size,
    ;
}

/// Every byte of a `.splat` record has its own place in the splat. The first
/// six words are the position and the scale, bytes 24 to 27 the red, green,
/// blue and alpha as parts of 255, and bytes 28 to 31 the rotation: each less
/// 128, as parts of 128.
pub proof fn law_splat_records_hold_splats(
    bytes: &[u8],
    r: Result<Vec<GaussianSplat>, String>,
    i: int,
    c: int,
    q: int,
)
    requires
        call_ensures(load_splat, (bytes,), r),
        bytes@.len() % 32 == 0,
        0 <= i < bytes@.len() / 32,
        0 <= c < 3,
        0 <= q < 4,
    ensures
        r is Ok,
        r->Ok_0@.len() == bytes@.len() / 32,
        r->Ok_0@[i].position[c] == le::spelled_at(bytes@, 32 * i + 4 * c),
        r->Ok_0@[i].scale[c] == le::spelled_at(bytes@, 32 * i + 12 + 4 * c),
        bytes@[32 * i + 24 + q] == 0 ==> r->Ok_0@[i].color[q] == 0,
        bytes@[32 * i + 24 + q] > 0 ==> single::is_nearest(
            r->Ok_0@[i].color[q],
            bytes@[32 * i + 24 + q] as nat,
            255,
        ),
        bytes@[32 * i + 28 + q] == 128 ==> r->Ok_0@[i].rotation[q] == 0,
        bytes@[32 * i + 28 + q] > 128 ==> single::is_nearest(
            r->Ok_0@[i].rotation[q],
            (bytes@[32 * i + 28 + q] - 128) as nat,
            128,
        ),
        bytes@[32 * i + 28 + q] < 128 ==> r->Ok_0@[i].rotation[q] >= 0x8000_0000
            && single::is_nearest(
            (r->Ok_0@[i].rotation[q] - 0x8000_0000) as u32,
            (128 - bytes@[32 * i + 28 + q]) as nat,
            128,
        ),
{
    let splat = r->Ok_0@[i];
    assert(splat == record_splat(bytes@, 32 * i));
    let tint = bytes@[32 * i + 24 + q];
    let turn = bytes@[32 * i + 28 + q];
    let size = if turn >= 128 {
        (turn - 128) as nat
    } else {
        (128 - turn) as nat
    };
    single::law_ratio_exists(tint as nat, 255);
    single::law_ratio_exists(size, 128);
    assert(splat.color[q] == single::ratio_bits(tint as nat, 255));
    if tint > 0 {
        single::law_ratio_is_nearest(single::ratio_bits(tint as nat, 255), tint as nat, 255);
    }
    if turn != 128 {
        single::law_ratio_is_nearest(single::ratio_bits(size, 128), size, 128);
    }
}

/// Bytes that the first `j` properties take together.
pub open spec fn bytes_before(properties: Seq<(Seq<char>, nat)>, j: int) -> nat
    decreases j,
{
    if j <= 0 {
        0
    } else {
        bytes_before(properties, j - 1) + properties[j - 1].1
    }
}

/// What a vertex holds under each name is what its own record holds there: the
/// number that the four bytes of that property spell, in the record that
/// follows those of the vertices before it. Of several properties of one name
/// the last counts.
pub proof fn law_vertices_hold_their_records(
    bytes: &[u8],
    end: int,
    h: HeaderModel,
    vertices: Vec<PlyVertex>,
    i: int,
    j: int,
    at: int,
)
    requires
        call_ensures(load_ply, (bytes,), Ok(vertices)),
        header_end(bytes@, 0) == Some(end),
        header_of(vstd::utf8::decode_utf8(bytes@.take(end))) == Ok::<HeaderModel, Seq<char>>(h),
        0 <= i < h.vertex_count,
        0 <= j < h.properties.len(),
        forall|k: int| j < k < h.properties.len() ==> (#[trigger] h.properties[k]).0
            != h.properties[j].0,
        at == end + i * bytes_before(h.properties, h.properties.len() as int) + bytes_before(
            h.properties,
            j,
        ),
    ensures
        h.binary_little_endian,
        vertices@.len() == h.vertex_count,
        h.properties[j].0 == "x"@ ==> vertices@[i].position[0] == le::spelled_at(bytes@, at),
        h.properties[j].0 == "y"@ ==> vertices@[i].position[1] == le::spelled_at(bytes@, at),
        h.properties[j].0 == "z"@ ==> vertices@[i].position[2] == le::spelled_at(bytes@, at),
        h.properties[j].0 == "scale_0"@ ==> vertices@[i].log_scale[0] == le::spelled_at(bytes@, at),
        h.properties[j].0 == "scale_1"@ ==> vertices@[i].log_scale[1] == le::spelled_at(bytes@, at),
        h.properties[j].0 == "scale_2"@ ==> vertices@[i].log_scale[2] == le::spelled_at(bytes@, at),
        h.properties[j].0 == "rot_0"@ ==> vertices@[i].rotation[0] == le::spelled_at(bytes@, at),
        h.properties[j].0 == "rot_1"@ ==> vertices@[i].rotation[1] == le::spelled_at(bytes@, at),
        h.properties[j].0 == "rot_2"@ ==> vertices@[i].rotation[2] == le::spelled_at(bytes@, at),
        h.properties[j].0 == "rot_3"@ ==> vertices@[i].rotation[3] == le::spelled_at(bytes@, at),
        h.properties[j].0 == "opacity"@ ==> vertices@[i].opacity == le::spelled_at(bytes@, at),
        h.properties[j].0 == "f_dc_0"@ ==> vertices@[i].dc[0] == le::spelled_at(bytes@, at),
        h.properties[j].0 == "f_dc_1"@ ==> vertices@[i].dc[1] == le::spelled_at(bytes@, at),
        h.properties[j].0 == "f_dc_2"@ ==> vertices@[i].dc[2] == le::spelled_at(bytes@, at),
{
    let properties = h.properties;
    let body = bytes@.skip(end);
    let name = properties[j].0;
    let v = vertices@[i];
    let count = h.vertex_count as int;
    assert(is_vertex(v, properties, body, i));
    lemma_bytes_before(properties, j);
    lemma_bytes_before(properties, properties.len() as int);
    assert(properties.take(properties.len() as int) =~= properties);
    lemma_last_of_name(properties, j);
    lemma_header_end_from(bytes@, 0);
    lemma_record_in_body(record_size(properties) as int, i, count);
    let start = i * record_size(properties) + record_size(properties.take(j));
    assert(at == end + start);
    if is_wanted_name(name) {
        let k = choose|k: int| 0 <= k < WANTED && #[trigger] wanted_names()[k] == name;
        lemma_nothing_missing(properties, 0);
        lemma_nothing_overruns(properties, 0);
        assert(wanted_offset(properties, k) is Some);
        assert(start + 4 <= body.len());
        assert(body[start] == bytes@[at]);
        assert(body[start + 1] == bytes@[at + 1]);
        assert(body[start + 2] == bytes@[at + 2]);
        assert(body[start + 3] == bytes@[at + 3]);
        assert(le::word_at(body, start) == le::spelled_at(bytes@, at));
        assert(wanted_offset(properties, k) == Some(record_size(properties.take(j))));
    }
    if name == "x"@ {
        assert(wanted_names()[0] == name);
        assert(vertex_word(properties, body, i, 0) == v.position[0]);
    }
    if name == "y"@ {
        assert(wanted_names()[1] == name);
        assert(vertex_word(properties, body, i, 1) == v.position[1]);
    }
    if name == "z"@ {
        assert(wanted_names()[2] == name);
        assert(vertex_word(properties, body, i, 2) == v.position[2]);
    }
    if name == "scale_0"@ {
        assert(wanted_names()[3] == name);
        assert(vertex_word(properties, body, i, 3) == v.log_scale[0]);
    }
    if name == "scale_1"@ {
        assert(wanted_names()[4] == name);
        assert(vertex_word(properties, body, i, 4) == v.log_scale[1]);
    }
    if name == "scale_2"@ {
        assert(wanted_names()[5] == name);
        assert(vertex_word(properties, body, i, 5) == v.log_scale[2]);
    }
    if name == "rot_0"@ {
        assert(wanted_names()[6] == name);
        assert(vertex_word(properties, body, i, 6) == v.rotation[0]);
    }
    if name == "rot_1"@ {
        assert(wanted_names()[7] == name);
        assert(vertex_word(properties, body, i, 7) == v.rotation[1]);
    }
    if name == "rot_2"@ {
        assert(wanted_names()[8] == name);
        assert(vertex_word(properties, body, i, 8) == v.rotation[2]);
    }
    if name == "rot_3"@ {
        assert(wanted_names()[9] == name);
        assert(vertex_word(properties, body, i, 9) == v.rotation[3]);
    }
    if name == "opacity"@ {
        assert(wanted_names()[10] == name);
        assert(vertex_word(properties, body, i, 10) == v.opacity);
    }
    if name == "f_dc_0"@ {
        assert(wanted_names()[11] == name);
        assert(vertex_word(properties, body, i, 11) == v.dc[0]);
    }
    if name == "f_dc_1"@ {
        assert(wanted_names()[12] == name);
        assert(vertex_word(properties, body, i, 12) == v.dc[1]);
    }
    if name == "f_dc_2"@ {
        assert(wanted_names()[13] == name);
        assert(vertex_word(properties, body, i, 13) == v.dc[2]);
    }
}

spec fn is_wanted_name(name: Seq<char>) -> bool {
    exists|k: int| 0 <= k < WANTED && #[trigger] wanted_names()[k] == name
}

proof fn lemma_bytes_before(properties: Seq<(Seq<char>, nat)>, j: int)
    requires
        0 <= j <= properties.len(),
    ensures
        bytes_before(properties, j) == record_size(properties.take(j)),
    decreases j,
{
    if j > 0 {
        lemma_bytes_before(properties, j - 1);
        assert(properties.take(j).drop_last() =~= properties.take(j - 1));
    }
}

proof fn lemma_last_of_name(properties: Seq<(Seq<char>, nat)>, j: int)
    requires
        0 <= j < properties.len(),
        forall|k: int| j < k < properties.len() ==> (#[trigger] properties[k]).0
            != properties[j].0,
    ensures
        offset_of(properties, properties[j].0) == Some(record_size(properties.take(j))),
    decreases properties.len(),
{
    let rest = properties.drop_last();
    if j == properties.len() - 1 {
        assert(properties.take(j) =~= rest);
    } else {
        assert(properties[properties.len() - 1].0 != properties[j].0);
        assert forall|k: int| j < k < rest.len() implies (#[trigger] rest[k]).0 != rest[j].0 by {
            assert(properties[k].0 != properties[j].0);
        }
        lemma_last_of_name(rest, j);
        assert(rest.take(j) =~= properties.take(j));
    }
}

proof fn lemma_nothing_overruns(properties: Seq<(Seq<char>, nat)>, k: int)
    requires
        0 <= k,
        first_overrun(properties, k) is None,
    ensures
        forall|j: int|
            k <= j < WANTED ==> (#[trigger] wanted_offset(properties, j))->0 + 4 <= record_size(
                properties,
            ),
    decreases WANTED - k,
{
    if k < WANTED {
        lemma_nothing_overruns(properties, k + 1);
    }
}

/// A vertex depends on the header and on its own record alone: two files with
/// the same header whose bytes agree in record `i` load the same vertex `i`,
/// whatever their other records hold.
pub proof fn law_records_are_local(
    a: &[u8],
    b: &[u8],
    end: int,
    h: HeaderModel,
    from_a: Vec<PlyVertex>,
    from_b: Vec<PlyVertex>,
    i: int,
)
    requires
        call_ensures(load_ply, (a,), Ok(from_a)),
        call_ensures(load_ply, (b,), Ok(from_b)),
        header_end(a@, 0) == Some(end),
        header_end(b@, 0) == Some(end),
        a@.take(end) == b@.take(end),
        header_of(vstd::utf8::decode_utf8(a@.take(end))) == Ok::<HeaderModel, Seq<char>>(h),
        0 <= i < h.vertex_count,
        forall|t: int|
            0 <= t < bytes_before(h.properties, h.properties.len() as int) ==> #[trigger] a@[end + (i
                * bytes_before(h.properties, h.properties.len() as int) + t)] == b@[end + (i
                * bytes_before(h.properties, h.properties.len() as int) + t)],
    ensures
        from_a@.len() == from_b@.len() == h.vertex_count,
        from_a@[i] == from_b@[i],
{
    let properties = h.properties;
    let record = record_size(properties) as int;
    let count = h.vertex_count as int;
    let va = from_a@[i];
    let vb = from_b@[i];
    lemma_bytes_before(properties, properties.len() as int);
    assert(properties.take(properties.len() as int) =~= properties);
    lemma_header_end_from(a@, 0);
    lemma_header_end_from(b@, 0);
    lemma_record_in_body(record, i, count);
    lemma_nothing_missing(properties, 0);
    lemma_nothing_overruns(properties, 0);
    assert(is_vertex(va, properties, a@.skip(end), i));
    assert(is_vertex(vb, properties, b@.skip(end), i));
    assert forall|k: int| 0 <= k < WANTED implies #[trigger] vertex_word(
        properties,
        a@.skip(end),
        i,
        k,
    ) == vertex_word(properties, b@.skip(end), i, k) by {
        let at = wanted_offset(properties, k)->0 as int;
        assert(wanted_offset(properties, k) is Some);
        assert forall|t: int| 0 <= t < 4 implies #[trigger] a@.skip(end)[i * record + at + t]
            == b@.skip(end)[i * record + at + t] by {
            assert(a@[end + (i * record + (at + t))] == b@[end + (i * record + (at + t))]);
        }
        assert(a@.skip(end)[i * record + at + 0] == b@.skip(end)[i * record + at + 0]);
        assert(a@.skip(end)[i * record + at + 1] == b@.skip(end)[i * record + at + 1]);
        assert(a@.skip(end)[i * record + at + 2] == b@.skip(end)[i * record + at + 2]);
        assert(a@.skip(end)[i * record + at + 3] == b@.skip(end)[i * record + at + 3]);
    }
    assert forall|j: int| 0 <= j < 3 implies #[trigger] va.position[j] == vb.position[j] by {
        let w = vertex_word(properties, a@.skip(end), i, j);
    }
    assert forall|j: int| 0 <= j < 3 implies #[trigger] va.log_scale[j] == vb.log_scale[j] by {
        let w = vertex_word(properties, a@.skip(end), i, 3 + j);
    }
    assert forall|j: int| 0 <= j < 4 implies #[trigger] va.rotation[j] == vb.rotation[j] by {
        let w = vertex_word(properties, a@.skip(end), i, 6 + j);
    }
    assert forall|j: int| 0 <= j < 3 implies #[trigger] va.dc[j] == vb.dc[j] by {
        let w = vertex_word(properties, a@.skip(end), i, 11 + j);
    }
    assert(vertex_word(properties, a@.skip(end), i, 10) == vertex_word(
        properties,
        b@.skip(end),
        i,
        10,
    ));
    assert(va.position =~= vb.position);
    assert(va.log_scale =~= vb.log_scale);
    assert(va.rotation =~= vb.rotation);
    assert(va.dc =~= vb.dc);
}

/// Whether a property of this name is declared, and only as one of four bytes.
pub open spec fn has_single(properties: Seq<(Seq<char>, nat)>, name: Seq<char>) -> bool {
    &&& exists|j: int| 0 <= j < properties.len() && (#[trigger] properties[j]).0 == name
    &&& forall|j: int|
        0 <= j < properties.len() && (#[trigger] properties[j]).0 == name ==> properties[j].1 == 4
}

/// A file loads when its header reads as binary little-endian, counts at least
/// one vertex and declares the fourteen properties of a splat as four bytes
/// each, and as many whole records follow; bytes past them do not matter.
pub proof fn law_complete_files_load(
    bytes: &[u8],
    end: int,
    h: HeaderModel,
    r: Result<Vec<PlyVertex>, String>,
)
    requires
        call_ensures(load_ply, (bytes,), r),
        header_end(bytes@, 0) == Some(end),
        vstd::utf8::valid_utf8(bytes@.take(end)),
        header_of(vstd::utf8::decode_utf8(bytes@.take(end))) == Ok::<HeaderModel, Seq<char>>(h),
        h.binary_little_endian,
        h.vertex_count > 0,
        bytes@.len() >= end + bytes_before(h.properties, h.properties.len() as int)
            * h.vertex_count,
        has_single(h.properties, "x"@),
        has_single(h.properties, "y"@),
        has_single(h.properties, "z"@),
        has_single(h.properties, "scale_0"@),
        has_single(h.properties, "scale_1"@),
        has_single(h.properties, "scale_2"@),
        has_single(h.properties, "rot_0"@),
        has_single(h.properties, "rot_1"@),
        has_single(h.properties, "rot_2"@),
        has_single(h.properties, "rot_3"@),
        has_single(h.properties, "opacity"@),
        has_single(h.properties, "f_dc_0"@),
        has_single(h.properties, "f_dc_1"@),
        has_single(h.properties, "f_dc_2"@),
    ensures
        r is Ok,
        r->Ok_0@.len() == h.vertex_count,
{
    assert(has_single(h.properties, wanted_names()[0]));
    assert(has_single(h.properties, wanted_names()[1]));
    assert(has_single(h.properties, wanted_names()[2]));
    assert(has_single(h.properties, wanted_names()[3]));
    assert(has_single(h.properties, wanted_names()[4]));
    assert(has_single(h.properties, wanted_names()[5]));
    assert(has_single(h.properties, wanted_names()[6]));
    assert(has_single(h.properties, wanted_names()[7]));
    assert(has_single(h.properties, wanted_names()[8]));
    assert(has_single(h.properties, wanted_names()[9]));
    assert(has_single(h.properties, wanted_names()[10]));
    assert(has_single(h.properties, wanted_names()[11]));
    assert(has_single(h.properties, wanted_names()[12]));
    assert(has_single(h.properties, wanted_names()[13]));
    lemma_bytes_before(h.properties, h.properties.len() as int);
    assert(h.properties.take(h.properties.len() as int) =~= h.properties);
    lemma_header_end_from(bytes@, 0);
    assert forall|k: int| 0 <= k < WANTED implies #[trigger] wanted_offset(h.properties, k) is Some
        && wanted_offset(h.properties, k)->0 + 4 <= record_size(h.properties) by {
        let name = wanted_names()[k];
        assert(has_single(h.properties, name));
        let j = choose|j: int| 0 <= j < h.properties.len() && (#[trigger] h.properties[j]).0 == name;
        lemma_named_has_offset(h.properties, name, j);
        let q = lemma_offset_is_start(h.properties, name);
        assert(h.properties[q].0 == name);
        lemma_record_prefix(h.properties, q);
    }
    lemma_all_found(h.properties, 0);
    assert(body_refusal(h, bytes@.skip(end)) is None);
}

/// A file is refused when its header is not binary little-endian, counts no
/// vertex or leaves out one of the properties, or when fewer bytes follow than
/// the records take.
pub proof fn law_incomplete_files_are_refused(
    bytes: &[u8],
    end: int,
    h: HeaderModel,
    r: Result<Vec<PlyVertex>, String>,
    name: Seq<char>,
)
    requires
        call_ensures(load_ply, (bytes,), r),
        header_end(bytes@, 0) == Some(end),
        header_of(vstd::utf8::decode_utf8(bytes@.take(end))) == Ok::<HeaderModel, Seq<char>>(h),
        name == "x"@ || name == "y"@ || name == "z"@ || name == "scale_0"@ || name == "scale_1"@ || name == "scale_2"@ || name == "rot_0"@ || name == "rot_1"@ || name == "rot_2"@ || name == "rot_3"@ || name == "opacity"@ || name == "f_dc_0"@ || name == "f_dc_1"@ || name == "f_dc_2"@,
        !h.binary_little_endian || h.vertex_count == 0 || bytes@.len() < end + bytes_before(
            h.properties,
            h.properties.len() as int,
        ) * h.vertex_count || forall|j: int|
            0 <= j < h.properties.len() ==> (#[trigger] h.properties[j]).0 != name,
    ensures
        r is Err,
{
    lemma_bytes_before(h.properties, h.properties.len() as int);
    assert(h.properties.take(h.properties.len() as int) =~= h.properties);
    lemma_header_end_from(bytes@, 0);
    if r is Ok {
        lemma_nothing_missing(h.properties, 0);
        if name == "x"@ {
            assert(wanted_names()[0] == name);
            assert(wanted_offset(h.properties, 0) is Some);
            let j = lemma_offset_is_start(h.properties, name);
            assert(h.properties[j].0 == name);
        }
        if name == "y"@ {
            assert(wanted_names()[1] == name);
            assert(wanted_offset(h.properties, 1) is Some);
            let j = lemma_offset_is_start(h.properties, name);
            assert(h.properties[j].0 == name);
        }
        if name == "z"@ {
            assert(wanted_names()[2] == name);
            assert(wanted_offset(h.properties, 2) is Some);
            let j = lemma_offset_is_start(h.properties, name);
            assert(h.properties[j].0 == name);
        }
        if name == "scale_0"@ {
            assert(wanted_names()[3] == name);
            assert(wanted_offset(h.properties, 3) is Some);
            let j = lemma_offset_is_start(h.properties, name);
            assert(h.properties[j].0 == name);
        }
        if name == "scale_1"@ {
            assert(wanted_names()[4] == name);
            assert(wanted_offset(h.properties, 4) is Some);
            let j = lemma_offset_is_start(h.properties, name);
            assert(h.properties[j].0 == name);
        }
        if name == "scale_2"@ {
            assert(wanted_names()[5] == name);
            assert(wanted_offset(h.properties, 5) is Some);
            let j = lemma_offset_is_start(h.properties, name);
            assert(h.properties[j].0 == name);
        }
        if name == "rot_0"@ {
            assert(wanted_names()[6] == name);
            assert(wanted_offset(h.properties, 6) is Some);
            let j = lemma_offset_is_start(h.properties, name);
            assert(h.properties[j].0 == name);
        }
        if name == "rot_1"@ {
            assert(wanted_names()[7] == name);
            assert(wanted_offset(h.properties, 7) is Some);
            let j = lemma_offset_is_start(h.properties, name);
            assert(h.properties[j].0 == name);
        }
        if name == "rot_2"@ {
            assert(wanted_names()[8] == name);
            assert(wanted_offset(h.properties, 8) is Some);
            let j = lemma_offset_is_start(h.properties, name);
            assert(h.properties[j].0 == name);
        }
        if name == "rot_3"@ {
            assert(wanted_names()[9] == name);
            assert(wanted_offset(h.properties, 9) is Some);
            let j = lemma_offset_is_start(h.properties, name);
            assert(h.properties[j].0 == name);
        }
        if name == "opacity"@ {
            assert(wanted_names()[10] == name);
            assert(wanted_offset(h.properties, 10) is Some);
            let j = lemma_offset_is_start(h.properties, name);
            assert(h.properties[j].0 == name);
        }
        if name == "f_dc_0"@ {
            assert(wanted_names()[11] == name);
            assert(wanted_offset(h.properties, 11) is Some);
            let j = lemma_offset_is_start(h.properties, name);
            assert(h.properties[j].0 == name);
        }
        if name == "f_dc_1"@ {
            assert(wanted_names()[12] == name);
            assert(wanted_offset(h.properties, 12) is Some);
            let j = lemma_offset_is_start(h.properties, name);
            assert(h.properties[j].0 == name);
        }
        if name == "f_dc_2"@ {
            assert(wanted_names()[13] == name);
            assert(wanted_offset(h.properties, 13) is Some);
            let j = lemma_offset_is_start(h.properties, name);
            assert(h.properties[j].0 == name);
        }
    }
}

/// Whether a property of this scalar type takes this many bytes.
pub open spec fn is_scalar(ty: Seq<char>, width: nat) -> bool {
    ||| width == 1 && (ty == "char"@ || ty == "int8"@ || ty == "uchar"@ || ty == "uint8"@)
    ||| width == 2 && (ty == "short"@ || ty == "int16"@ || ty == "ushort"@ || ty == "uint16"@)
    ||| width == 4 && (ty == "int"@ || ty == "int32"@ || ty == "uint"@ || ty == "uint32"@ || ty
        == "float"@ || ty == "float32"@)
    ||| width == 8 && (ty == "double"@ || ty == "float64"@)
}

/// What each header line says. A `format` line decides whether the body is
/// binary little-endian; an `element vertex` line gives the count and opens the
/// vertex element, any other `element` line closes it; a `property` line adds a
/// property of its type's width while the vertex element is open and does
/// nothing otherwise.
pub proof fn law_header_lines_say(
    h: HeaderModel,
    n: usize,
    other: Seq<char>,
    ty: Seq<char>,
    name: Seq<char>,
    width: nat,
)
    requires
        text::is_word(other),
        other != "vertex"@,
        text::is_word(name),
        is_scalar(ty, width),
    ensures
        header_line(h, "format binary_little_endian 1.0"@) == Ok::<HeaderModel, Seq<char>>(
            HeaderModel { binary_little_endian: true, ..h },
        ),
        header_line(h, "format ascii 1.0"@) == Ok::<HeaderModel, Seq<char>>(
            HeaderModel { binary_little_endian: false, ..h },
        ),
        header_line(h, "format "@ + other) == Ok::<HeaderModel, Seq<char>>(
            HeaderModel {
                binary_little_endian: other.len() >= 20 && other.take(20)
                    == "binary_little_endian"@,
                ..h
            },
        ),
        header_line(h, "element vertex"@) == Ok::<HeaderModel, Seq<char>>(
            HeaderModel { vertex_count: 0, in_vertex: true, ..h },
        ),
        header_line(h, "element vertex "@ + text::decimal(n as nat)) == Ok::<
            HeaderModel,
            Seq<char>,
        >(HeaderModel { vertex_count: n, in_vertex: true, ..h }),
        header_line(h, "element "@ + other + " "@ + text::decimal(n as nat)) == Ok::<
            HeaderModel,
            Seq<char>,
        >(HeaderModel { in_vertex: false, ..h }),
        h.in_vertex ==> header_line(h, "property "@ + ty + " "@ + name) == Ok::<
            HeaderModel,
            Seq<char>,
        >(HeaderModel { properties: h.properties.push((name, width)), ..h }),
        !h.in_vertex ==> header_line(h, "property "@ + ty + " "@ + name) == Ok::<
            HeaderModel,
            Seq<char>,
        >(h),
{
    let none = Seq::<char>::empty();
    let digits = text::decimal(n as nat);
    text::law_decimal_reads_back(n);
    reveal_strlit("format ");
    reveal_strlit("element ");
    reveal_strlit("property ");
    reveal_strlit("vertex");
    reveal_strlit(" ");
    reveal_strlit("binary_little_endian");
    reveal_strlit("list");
    assert(text::is_word("vertex"@));
    {
        let line = "format binary_little_endian 1.0"@;
        reveal_strlit("format binary_little_endian 1.0");
        lemma_trimmed_already(line);
        assert(line.take(7) =~= "format "@);
        assert(line.skip(7).take(20) =~= "binary_little_endian"@);
    }
    {
        let line = "format "@ + other;
        assert(line.last() == other.last());
        lemma_trimmed_already(line);
        assert(line.take(7) =~= "format "@);
        assert(line.skip(7) =~= other);
        assert("binary_little_endian"@.len() == 20);
    }
    {
        let line = "element vertex"@;
        reveal_strlit("element vertex");
        lemma_trimmed_already(line);
        assert(line.take(7)[0] == 'e' && "format "@[0] == 'f');
        assert(line.take(8) =~= "element "@);
        assert(line.skip(8) =~= none + "vertex"@ + none);
        text::law_words_are_split_at_whitespace(none, "vertex"@, none);
    }
    {
        let line = "format ascii 1.0"@;
        reveal_strlit("format ascii 1.0");
        lemma_trimmed_already(line);
        assert(line.take(7) =~= "format "@);
        assert(line.skip(7).len() < 20);
    }
    {
        let line = "element vertex "@ + digits;
        let rest = line.skip(8);
        reveal_strlit("element vertex ");
        assert(line.last() == digits.last());
        lemma_trimmed_already(line);
        assert(line.take(7)[0] == 'e' && "format "@[0] == 'f');
        assert(line.take(8) =~= "element "@);
        assert(rest =~= none + "vertex"@ + (" "@ + digits));
        text::law_words_are_split_at_whitespace(none, "vertex"@, " "@ + digits);
        assert(" "@ + digits =~= " "@ + digits + none);
        text::law_words_are_split_at_whitespace(" "@, digits, none);
    }
    {
        let line = "element "@ + other + " "@ + digits;
        let rest = line.skip(8);
        assert(line.last() == digits.last());
        lemma_trimmed_already(line);
        assert(line.take(7)[0] == 'e' && "format "@[0] == 'f');
        assert(line.take(8) =~= "element "@);
        assert(rest =~= none + other + (" "@ + digits));
        text::law_words_are_split_at_whitespace(none, other, " "@ + digits);
    }
    {
        let line = "property "@ + ty + " "@ + name;
        let rest = line.skip(9);
        lemma_scalar_is_word(ty, width);
        assert(line.last() == name.last());
        lemma_trimmed_already(line);
        assert(line.take(7)[0] == 'p' && "format "@[0] == 'f');
        assert(line.take(8)[0] == 'p' && "element "@[0] == 'e');
        assert(line.take(9) =~= "property "@);
        assert(rest =~= none + ty + (" "@ + name));
        text::law_words_are_split_at_whitespace(none, ty, " "@ + name);
        assert(" "@ + name =~= " "@ + name + none);
        text::law_words_are_split_at_whitespace(" "@, name, none);
    }
}

proof fn lemma_trimmed_already(line: Seq<char>)
    requires
        line.len() > 0,
        !text::is_white(line[0]),
        !text::is_white(line.last()),
    ensures
        text::trim(line) == line,
{
    let none = Seq::<char>::empty();
    assert(none + line + none =~= line);
    text::law_trim_takes_the_ends(none, line, none);
}

proof fn lemma_scalar_is_word(ty: Seq<char>, width: nat)
    requires
        is_scalar(ty, width),
    ensures
        text::is_word(ty),
        ty != "list"@,
        type_size(ty) == Some(width),
{
    reveal_strlit("list");
    reveal_strlit("char");
    reveal_strlit("int8");
    reveal_strlit("uchar");
    reveal_strlit("uint8");
    reveal_strlit("short");
    reveal_strlit("int16");
    reveal_strlit("ushort");
    reveal_strlit("uint16");
    reveal_strlit("int");
    reveal_strlit("int32");
    reveal_strlit("uint");
    reveal_strlit("uint32");
    reveal_strlit("float");
    reveal_strlit("float32");
    reveal_strlit("double");
    reveal_strlit("float64");
    assert("list"@[0] == 'l' && ty[0] != 'l');
    assert("char"@.len() == 4);
    assert("int8"@.len() == 4);
    assert("uchar"@.len() == 5);
    assert("uint8"@.len() == 5);
    assert("short"@.len() == 5);
    assert("int16"@.len() == 5);
    assert("ushort"@.len() == 6);
    assert("uint16"@.len() == 6);
    assert("int"@.len() == 3);
    assert("int32"@.len() == 5);
    assert("uint"@.len() == 4);
    assert("uint32"@.len() == 6);
    assert("float"@.len() == 5);
    assert("float32"@.len() == 7);
    assert("double"@.len() == 6);
    assert("float64"@.len() == 7);
    assert("char"@[0] != "uint"@[0]);
    assert("int8"@[0] != "uint"@[0]);
    assert("uchar"@[0] != "float"@[0]);
    assert("uchar"@[0] != "int32"@[0]);
    assert("uint8"@[0] != "float"@[0]);
    assert("uint8"@[0] != "int32"@[0]);
    assert("short"@[0] != "float"@[0]);
    assert("short"@[0] != "int32"@[0]);
    assert("int16"@[0] != "float"@[0]);
    assert("int16"@[3] != "int32"@[3]);
    assert("ushort"@[1] != "uint32"@[1]);
    assert("uint16"@[4] != "uint32"@[4]);
    assert("double"@[0] != "uint32"@[0]);
    assert("float64"@[5] != "float32"@[5]);
    assert("ushort"@[0] != "double"@[0]);
    assert("uint16"@[0] != "double"@[0]);
    assert("uchar"@[0] != "short"@[0]);
    assert("uint8"@[0] != "short"@[0]);
    assert("uchar"@[0] != "int16"@[0]);
    assert("uint8"@[0] != "int16"@[0]);
}

/// The lines of a header for `n` vertices with properties of these types and
/// names.
pub open spec fn header_text(n: nat, types: Seq<Seq<char>>, names: Seq<Seq<char>>) -> Seq<
    Seq<char>,
> {
    seq![
        "ply"@,
        "format binary_little_endian 1.0"@,
        "element vertex "@ + text::decimal(n),
    ] + Seq::new(names.len(), |j: int| "property "@ + types[j] + " "@ + names[j]) + seq![
        "end_header"@,
        ""@,
    ]
}

/// A header written line by line parses as what was written: the format, the
/// number of vertices, and the name and width of every property in order.
pub proof fn law_headers_read_back(
    n: usize,
    types: Seq<Seq<char>>,
    names: Seq<Seq<char>>,
    widths: Seq<nat>,
    text: &str,
    r: Result<PlyHeader, String>,
    j: int,
)
    requires
        types.len() == names.len() == widths.len(),
        forall|k: int| 0 <= k < names.len() ==> text::is_word(#[trigger] names[k]),
        forall|k: int| 0 <= k < names.len() ==> is_scalar(#[trigger] types[k], widths[k]),
        text@ == text::joined(header_text(n as nat, types, names)),
        call_ensures(parse_header, (text,), r),
    ensures
        r is Ok,
        r->Ok_0.binary_little_endian,
        r->Ok_0.vertex_count == n,
        r->Ok_0.properties@.len() == names.len(),
        0 <= j < names.len() ==> r->Ok_0.properties@[j].name@ == names[j],
        0 <= j < names.len() ==> r->Ok_0.properties@[j].size == widths[j],
{
    let head = seq![
        "ply"@,
        "format binary_little_endian 1.0"@,
        "element vertex "@ + text::decimal(n as nat),
    ];
    let fields = Seq::new(names.len(), |j: int| "property "@ + types[j] + " "@ + names[j]);
    lemma_fields_read(n, types, names, widths, names.len() as int);
    assert(fields.take(names.len() as int) =~= fields);
    let own = Seq::new(names.len(), |j: int| (names[j], widths[j]));
    assert(own.take(names.len() as int) =~= own);
    reveal_strlit("ply");
    reveal_strlit("format binary_little_endian 1.0");
    reveal_strlit("element vertex ");
    reveal_strlit("end_header");
    reveal_strlit("");
    reveal_strlit(" ");
    reveal_strlit("format ");
    reveal_strlit("element ");
    reveal_strlit("property ");
    lemma_trimmed_already("end_header"@);
    assert("end_header"@.take(7)[0] == 'e' && "format "@[0] == 'f');
    assert("end_header"@.take(8)[1] == 'n' && "element "@[1] == 'l');
    assert("end_header"@.take(9)[0] == 'e' && "property "@[0] == 'p');
    assert(text::trim(""@).len() == 0);
    let all = header_text(n as nat, types, names);
    assert(all.drop_last().drop_last() =~= head + fields);
    assert(all.drop_last().last() == "end_header"@);
    assert(read_lines(all.drop_last()) == read_lines(head + fields));
    assert(all.last() == ""@);
    text::law_decimal_reads_back(n);
    assert(text::is_white('\n'));
    assert forall|k: int, i: int| 0 <= k < all.len() && 0 <= i < all[k].len() implies #[trigger] all[k][i]
        != '\n' by {
        if k == 2 {
            let digits = text::decimal(n as nat);
            if i >= 15 {
                assert(all[k][i] == digits[i - 15]);
            }
        } else if 3 <= k < 3 + names.len() {
            let ty = types[k - 3];
            let name = names[k - 3];
            lemma_scalar_is_word(ty, widths[k - 3]);
            assert(all[k] == "property "@ + ty + " "@ + name);
            if 9 <= i < 9 + ty.len() {
                assert(all[k][i] == ty[i - 9]);
            } else if i > 9 + ty.len() {
                assert(all[k][i] == name[i - 10 - ty.len()]);
            }
        } else if k == 3 + names.len() {
            assert(all[k] == "end_header"@);
        } else if k == 4 + names.len() {
            assert(all[k] == ""@);
        }
    }
    text::law_lines_split_back(all);
    let header = r->Ok_0;
    assert(header@.properties == own);
    assert(property_list(header.properties@).len() == own.len());
    if 0 <= j < names.len() {
        assert(property_list(header.properties@)[j] == own[j]);
    }
}

proof fn lemma_fields_read(
    n: usize,
    types: Seq<Seq<char>>,
    names: Seq<Seq<char>>,
    widths: Seq<nat>,
    k: int,
)
    requires
        types.len() == names.len() == widths.len(),
        forall|j: int| 0 <= j < names.len() ==> text::is_word(#[trigger] names[j]),
        forall|j: int| 0 <= j < names.len() ==> is_scalar(#[trigger] types[j], widths[j]),
        0 <= k <= names.len(),
    ensures
        read_lines(
            seq![
                "ply"@,
                "format binary_little_endian 1.0"@,
                "element vertex "@ + text::decimal(n as nat),
            ] + Seq::new(names.len(), |j: int| "property "@ + types[j] + " "@ + names[j]).take(k),
        ) == Ok::<HeaderModel, Seq<char>>(
            HeaderModel {
                binary_little_endian: true,
                vertex_count: n,
                properties: Seq::new(names.len(), |j: int| (names[j], widths[j])).take(k),
                in_vertex: true,
            },
        ),
    decreases k,
{
    let head = seq![
        "ply"@,
        "format binary_little_endian 1.0"@,
        "element vertex "@ + text::decimal(n as nat),
    ];
    let fields = Seq::new(names.len(), |j: int| "property "@ + types[j] + " "@ + names[j]);
    let own = Seq::new(names.len(), |j: int| (names[j], widths[j]));
    if k == 0 {
        reveal_strlit("face");
        reveal_strlit("x");
        reveal_strlit("vertex");
        reveal_strlit("ply");
        reveal_strlit("format ");
        reveal_strlit("element ");
        reveal_strlit("property ");
        assert("face"@.len() != "vertex"@.len());
        lemma_trimmed_already("ply"@);
        assert(head + fields.take(0) =~= head);
        assert(head.drop_last().drop_last().drop_last() =~= Seq::empty());
        let h0 = empty_header();
        law_header_lines_say(h0, n, "face"@, "char"@, "x"@, 1);
        let h1 = HeaderModel { binary_little_endian: true, ..h0 };
        law_header_lines_say(h1, n, "face"@, "char"@, "x"@, 1);
        assert(own.take(0) =~= Seq::empty());
        assert(read_lines(head.drop_last().drop_last().drop_last()) == Ok::<HeaderModel, Seq<char>>(
            h0,
        ));
        assert(head.drop_last().drop_last().last() == "ply"@);
        assert(read_lines(head.drop_last().drop_last()) == Ok::<HeaderModel, Seq<char>>(h0));
        assert(read_lines(head.drop_last()) == Ok::<HeaderModel, Seq<char>>(h1));
    } else {
        lemma_fields_read(n, types, names, widths, k - 1);
        let before = head + fields.take(k - 1);
        let lines = head + fields.take(k);
        assert(lines.drop_last() =~= before);
        assert(lines.last() == "property "@ + types[k - 1] + " "@ + names[k - 1]);
        let h = read_lines(before)->Ok_0;
        reveal_strlit("face");
        reveal_strlit("vertex");
        assert("face"@.len() != "vertex"@.len());
        assert(is_scalar(types[k - 1], widths[k - 1]));
        law_header_lines_say(h, n, "face"@, types[k - 1], names[k - 1], widths[k - 1]);
        assert(own.take(k) =~= own.take(k - 1).push((names[k - 1], widths[k - 1])));
    }
}

/// The body of a file starts right behind the first place where the letters
/// `end_header` and a line feed stand.
pub proof fn law_body_follows_end_header(bytes: Seq<u8>, end: int, q: int)
    requires
        header_end(bytes, 0) == Some(end),
        0 <= q,
    ensures
        11 <= end <= bytes.len(),
        bytes.subrange(end - 11, end) == seq![
            0x65u8,
            0x6eu8,
            0x64u8,
            0x5fu8,
            0x68u8,
            0x65u8,
            0x61u8,
            0x64u8,
            0x65u8,
            0x72u8,
            0x0au8,
        ],
        q < end - 11 ==> bytes.subrange(q, q + 11) != bytes.subrange(end - 11, end),
{
    lemma_header_end_from(bytes, 0);
    if q < end - 11 {
        assert(!marker_at(bytes, q));
    }
}

/// Why a readable header is refused: another format, no vertices, the first of
/// the fourteen properties that is not there, or a body shorter than its
/// records.
pub proof fn law_refusals_say_why(
    bytes: &[u8],
    end: int,
    h: HeaderModel,
    r: Result<Vec<PlyVertex>, String>,
    order: Seq<Seq<char>>,
    k: int,
)
    requires
        call_ensures(load_ply, (bytes,), r),
        header_end(bytes@, 0) == Some(end),
        vstd::utf8::valid_utf8(bytes@.take(end)),
        header_of(vstd::utf8::decode_utf8(bytes@.take(end))) == Ok::<HeaderModel, Seq<char>>(h),
        order == seq![
            "x"@,
            "y"@,
            "z"@,
            "scale_0"@,
            "scale_1"@,
            "scale_2"@,
            "rot_0"@,
            "rot_1"@,
            "rot_2"@,
            "rot_3"@,
            "opacity"@,
            "f_dc_0"@,
            "f_dc_1"@,
            "f_dc_2"@,
        ],
        0 <= k <= 14,
        forall|m: int|
            0 <= m < k ==> exists|j: int|
                0 <= j < h.properties.len() && (#[trigger] h.properties[j]).0
                    == #[trigger] order[m],
        k < 14 ==> forall|j: int|
            0 <= j < h.properties.len() ==> (#[trigger] h.properties[j]).0 != order[k],
    ensures
        !h.binary_little_endian ==> r is Err && r->Err_0@
            == "only 'binary_little_endian' PLY files are supported — ASCII/big-endian PLY isn't handled"@,
        h.binary_little_endian && h.vertex_count == 0 ==> r is Err && r->Err_0@
            == "no 'element vertex N' found (or N was 0)"@,
        h.binary_little_endian && h.vertex_count > 0 && k < 14 ==> r is Err && r->Err_0@
            == "PLY file is missing required property '"@ + order[k] + "'"@,
        ({
            let record = bytes_before(h.properties, h.properties.len() as int);
            h.binary_little_endian && h.vertex_count > 0 && k == 14 && bytes@.len() - end < record
                * h.vertex_count ==> r is Err && r->Err_0@ == "PLY body is "@ + text::decimal(
                (bytes@.len() - end) as nat,
            ) + " bytes, expected at least "@ + text::decimal(record * h.vertex_count as nat)
                + " for "@ + text::decimal(h.vertex_count as nat) + " vertices at "@
                + text::decimal(record) + " bytes each"@
        }),
{
    assert(order =~= wanted_names());
    lemma_header_end_from(bytes@, 0);
    lemma_bytes_before(h.properties, h.properties.len() as int);
    assert(h.properties.take(h.properties.len() as int) =~= h.properties);
    assert forall|m: int| 0 <= m < k implies #[trigger] wanted_offset(h.properties, m) is Some by {
        let j = choose|j: int|
            0 <= j < h.properties.len() && (#[trigger] h.properties[j]).0 == order[m];
        lemma_named_has_offset(h.properties, order[m], j);
    }
    if k < 14 && wanted_offset(h.properties, k) is Some {
        let j = lemma_offset_is_start(h.properties, order[k]);
        assert(h.properties[j].0 == order[k]);
    }
    lemma_first_missing(h.properties, 0, k);
}

/// The first property that is missing is the one before which none is.
proof fn lemma_first_missing(properties: Seq<(Seq<char>, nat)>, from: int, k: int)
    requires
        0 <= from <= k <= WANTED,
        forall|m: int| from <= m < k ==> #[trigger] wanted_offset(properties, m) is Some,
        k < WANTED ==> wanted_offset(properties, k) is None,
    ensures
        first_missing(properties, from) == if k < WANTED {
            Some(k)
        } else {
            None
        },
    decreases k - from,
{
    if from < k {
        assert(wanted_offset(properties, from) is Some);
        lemma_first_missing(properties, from + 1, k);
    }
}

/// A file without an `end_header` line, or with a header that is no text, is
/// refused for that; and the header's own refusal is the file's.
pub proof fn law_unreadable_headers_are_refused(bytes: &[u8], r: Result<Vec<PlyVertex>, String>)
    requires
        call_ensures(load_ply, (bytes,), r),
    ensures
        header_end(bytes@, 0) is None ==> r is Err && r->Err_0@
            == "no 'end_header' line found — not a PLY file?"@,
        header_end(bytes@, 0) matches Some(end) ==> {
            &&& !vstd::utf8::valid_utf8(bytes@.take(end)) ==> r is Err && r->Err_0@
                == "PLY header isn't valid UTF-8/ASCII"@
            &&& vstd::utf8::valid_utf8(bytes@.take(end)) && header_of(
                vstd::utf8::decode_utf8(bytes@.take(end)),
            ) is Err ==> r is Err && r->Err_0@ == header_of(
                vstd::utf8::decode_utf8(bytes@.take(end)),
            )->Err_0
        },
{
}

/// A header is refused at a vertex count that is no number, and at a vertex
/// property without a name, of a list type or of a type that is not known.
pub proof fn law_bad_header_lines_are_refused(
    h: HeaderModel,
    word: Seq<char>,
    ty: Seq<char>,
    name: Seq<char>,
)
    requires
        text::is_word(word),
        text::is_word(ty),
        text::is_word(name),
    ensures
        text::number(word) is None ==> header_line(h, "element vertex "@ + word) == Err::<HeaderModel, Seq<char>>(
            "bad vertex count"@,
        ),
        h.in_vertex ==> header_line(h, "property list "@ + name) == Err::<HeaderModel, Seq<char>>(
            "list properties (e.g. face indices) aren't supported — this loader is for splat point clouds, not meshes"@,
        ),
        h.in_vertex && (forall|w: nat| !is_scalar(ty, w)) && ty != "list"@ ==> header_line(
            h,
            "property "@ + ty + " "@ + name,
        ) == Err::<HeaderModel, Seq<char>>(
            "unsupported PLY property type '"@ + ty
                + "' (only scalar numeric types are handled — no list properties)"@,
        ),
        h.in_vertex && ty != "list"@ ==> header_line(h, "property "@ + ty) == Err::<
            HeaderModel,
            Seq<char>,
        >("malformed property line"@),
{
    let none = Seq::<char>::empty();
    reveal_strlit("format ");
    reveal_strlit("element ");
    reveal_strlit("property ");
    reveal_strlit("vertex");
    reveal_strlit("list");
    reveal_strlit(" ");
    assert(text::is_word("vertex"@));
    assert(text::is_word("list"@));
    if text::number(word) is None {
        let line = "element vertex "@ + word;
        let rest = line.skip(8);
        reveal_strlit("element vertex ");
        assert(line.last() == word.last());
        lemma_trimmed_already(line);
        assert(line.take(7)[0] == 'e' && "format "@[0] == 'f');
        assert(line.take(8) =~= "element "@);
        assert(rest =~= none + "vertex"@ + (" "@ + word));
        text::law_words_are_split_at_whitespace(none, "vertex"@, " "@ + word);
        assert(" "@ + word =~= " "@ + word + none);
        text::law_words_are_split_at_whitespace(" "@, word, none);
    }
    {
        let line = "property list "@ + name;
        let rest = line.skip(9);
        reveal_strlit("property list ");
        assert(line.last() == name.last());
        lemma_trimmed_already(line);
        assert(line.take(7)[0] == 'p' && "format "@[0] == 'f');
        assert(line.take(8)[0] == 'p' && "element "@[0] == 'e');
        assert(line.take(9) =~= "property "@);
        assert(rest =~= none + "list"@ + (" "@ + name));
        text::law_words_are_split_at_whitespace(none, "list"@, " "@ + name);
    }
    {
        let line = "property "@ + ty + " "@ + name;
        let rest = line.skip(9);
        assert(line.last() == name.last());
        lemma_trimmed_already(line);
        assert(line.take(7)[0] == 'p' && "format "@[0] == 'f');
        assert(line.take(8)[0] == 'p' && "element "@[0] == 'e');
        assert(line.take(9) =~= "property "@);
        assert(rest =~= none + ty + (" "@ + name));
        text::law_words_are_split_at_whitespace(none, ty, " "@ + name);
        assert(" "@ + name =~= " "@ + name + none);
        text::law_words_are_split_at_whitespace(" "@, name, none);
        if forall|w: nat| !is_scalar(ty, w) {
            assert(!is_scalar(ty, 1) && !is_scalar(ty, 2) && !is_scalar(ty, 4) && !is_scalar(ty, 8));
            assert(type_size(ty) is None);
        }
    }
    {
        let line = "property "@ + ty;
        let rest = line.skip(9);
        assert(line.last() == ty.last());
        lemma_trimmed_already(line);
        assert(line.take(7)[0] == 'p' && "format "@[0] == 'f');
        assert(line.take(8)[0] == 'p' && "element "@[0] == 'e');
        assert(line.take(9) =~= "property "@);
        assert(rest =~= none + ty + none);
        text::law_words_are_split_at_whitespace(none, ty, none);
    }
}

/// Files go by their extension in either case: `splat` and `ply`, and no other.
pub proof fn law_extensions_choose_the_reader(
    extension: &str,
    bytes: &[u8],
    r: Result<SplatFile, String>,
)
    requires
        call_ensures(load_by_extension, (Some(extension), bytes), r),
    ensures
        text::lower(extension@) == "splat"@ ==> (r is Ok <==> bytes@.len() % 32 == 0) && !(
        r matches Ok(SplatFile::Vertices(_))),
        text::lower(extension@) == "splat"@ && r is Err ==> r->Err_0@ == ".splat file size "@
            + text::decimal(bytes@.len())
            + " isn't a multiple of the 32-byte record size"@,
        text::lower(extension@) == "splat"@ ==> (r matches Ok(SplatFile::Splats(v))
            ==> is_splat_result(bytes@, Ok(v))),
        text::lower(extension@) == "ply"@ ==> (r matches Ok(SplatFile::Vertices(v))
            ==> is_ply_result(bytes@, Ok(v))),
        text::lower(extension@) == "ply"@ ==> !(r matches Ok(SplatFile::Splats(_))),
        r is Ok ==> text::lower(extension@) == "splat"@ || text::lower(extension@) == "ply"@,
        text::lower(extension@) != "splat"@ && text::lower(extension@) != "ply"@ ==> r->Err_0@
            == "unsupported artifact extension '."@ + text::lower(extension@)
            + "' — only .splat and .ply are handled"@,
{
    reveal_strlit("splat");
    reveal_strlit("ply");
    assert("splat"@.len() != "ply"@.len());
}

/// A scalar type has its width, and no other type is known.
pub proof fn law_scalar_types_have_their_width(
    ty: &str,
    r: Result<usize, String>,
    width: nat,
)
    requires
        call_ensures(ply_type_size, (ty,), r),
    ensures
        is_scalar(ty@, width) ==> r is Ok && r->Ok_0 == width,
        r is Ok ==> is_scalar(ty@, r->Ok_0 as nat),
{
    if is_scalar(ty@, width) {
        lemma_scalar_is_word(ty@, width);
    }
}

/// No byte of a `.splat` file is without influence: files of different bytes
/// load as different splats.
pub proof fn law_splat_files_are_told_apart(
    a: &[u8],
    b: &[u8],
    from_a: Vec<GaussianSplat>,
    from_b: Vec<GaussianSplat>,
)
    requires
        call_ensures(load_splat, (a,), Ok(from_a)),
        call_ensures(load_splat, (b,), Ok(from_b)),
        from_a@ == from_b@,
    ensures
        a@ == b@,
{
    assert(a@.len() == b@.len());
    assert forall|k: int| 0 <= k < a@.len() implies a@[k] == b@[k] by {
        let i = k / 32;
        let at = 32 * i;
        let j = k % 32;
        assert(from_a@[i] == record_splat(a@, at));
        assert(from_b@[i] == record_splat(b@, at));
        let sa = record_splat(a@, at);
        let sb = record_splat(b@, at);
        if j < 12 {
            let c = j / 4;
            assert(sa.position[c] == le::word_at(a@, at + 4 * c));
            assert(sb.position[c] == le::word_at(b@, at + 4 * c));
            lemma_word_bytes(a@, b@, at + 4 * c, j % 4);
        } else if j < 24 {
            let c = (j - 12) / 4;
            assert(sa.scale[c] == le::word_at(a@, at + 12 + 4 * c));
            assert(sb.scale[c] == le::word_at(b@, at + 12 + 4 * c));
            lemma_word_bytes(a@, b@, at + 12 + 4 * c, (j - 12) % 4);
        } else if j < 28 {
            let q = j - 24;
            assert(sa.color[q] == color_fraction(a@[at + 24 + q]));
            assert(sb.color[q] == color_fraction(b@[at + 24 + q]));
            single::law_small_quotients_differ(a@[k] as nat, b@[k] as nat, 255);
        } else {
            let q = j - 28;
            assert(sa.rotation[q] == rotation_fraction(a@[at + 28 + q]));
            assert(sb.rotation[q] == rotation_fraction(b@[at + 28 + q]));
            lemma_rotation_bytes(a@[k], b@[k]);
        }
    }
    assert(a@ =~= b@);
}

/// Equal words have equal bytes.
proof fn lemma_word_bytes(a: Seq<u8>, b: Seq<u8>, at: int, t: int)
    requires
        le::word_at(a, at) == le::word_at(b, at),
        0 <= t < 4,
    ensures
        a[at + t] == b[at + t],
{
    le::law_words_are_spelled(a, at);
    le::law_words_are_spelled(b, at);
}

/// Equal rotations come from equal bytes.
proof fn lemma_rotation_bytes(x: u8, y: u8)
    requires
        rotation_fraction(x) == rotation_fraction(y),
    ensures
        x == y,
{
    let n: nat = if x >= 128 {
        (x - 128) as nat
    } else {
        (128 - x) as nat
    };
    let m: nat = if y >= 128 {
        (y - 128) as nat
    } else {
        (128 - y) as nat
    };
    single::law_ratio_exists(n, 128);
    single::law_ratio_exists(m, 128);
    single::law_small_quotients_differ(
        n,
        if single::ratio_bits(n, 128) == single::ratio_bits(m, 128) {
            m
        } else {
            n
        },
        128,
    );
}

} // verus!
