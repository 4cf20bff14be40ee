//! Structure of Wavefront OBJ text: line kinds, face records and the
//! assembly of faces into a mesh. Reading the float components of `v` and
//! `vt` lines is left to the caller, which hands them over as bit patterns.
use crate::mesh::{CFrame, Mesh, Vertex};
use vstd::prelude::*;

verus! {

/// Characters that separate the fields of a face record.
pub open spec fn is_field_separator(c: char) -> bool {
    c == ' ' || c == '/'
}

/// Splits text at every separator, keeping empty fields (as `str::split` does).
pub open spec fn split_fields(s: Seq<char>) -> Seq<Seq<char>>
    decreases s.len(),
{
    if s.len() == 0 {
        seq![Seq::empty()]
    } else {
        let r = split_fields(s.drop_last());
        if is_field_separator(s.last()) {
            r.push(Seq::empty())
        } else {
            r.update(r.len() - 1, r.last().push(s.last()))
        }
    }
}

pub open spec fn is_ascii_digit(c: char) -> bool {
    '0' <= c && c <= '9'
}

pub open spec fn digit_value(c: char) -> nat {
    if is_ascii_digit(c) {
        (c as int - '0' as int) as nat
    } else {
        0
    }
}

/// Value of a decimal numeral, most significant digit first.
pub open spec fn digits_value(d: Seq<char>) -> nat
    decreases d.len(),
{
    if d.len() == 0 {
        0
    } else {
        digits_value(d.drop_last()) * 10 + digit_value(d.last())
    }
}

/// The numeral of a field once an optional leading `+` is dropped.
pub open spec fn unsigned_digits(t: Seq<char>) -> Seq<char> {
    if t.len() > 0 && t[0] == '+' {
        t.drop_first()
    } else {
        t
    }
}

/// How `u16`'s `FromStr` reads a field: an optional `+`, then at least one
/// ASCII digit, the value at most `u16::MAX`.
pub open spec fn parse_u16_spec(t: Seq<char>) -> Option<u16> {
    let d = unsigned_digits(t);
    if d.len() > 0 && (forall|i: int| 0 <= i < d.len() ==> is_ascii_digit(#[trigger] d[i]))
        && digits_value(d) <= u16::MAX {
        Some(digits_value(d) as u16)
    } else {
        None
    }
}

/// The values of the fields that read as `u16`, in order.
pub open spec fn parsed_numbers(fields: Seq<Seq<char>>) -> Seq<u16>
    decreases fields.len(),
{
    if fields.len() == 0 {
        Seq::empty()
    } else {
        parsed_numbers(fields.drop_last()) + match parse_u16_spec(fields.last()) {
            Some(v) => seq![v],
            None => Seq::empty(),
        }
    }
}

/// The numbers of a face record such as `f 1/2/3 4/5/6 7/8/9`.
pub open spec fn face_data_spec(s: Seq<char>) -> Seq<u16> {
    parsed_numbers(split_fields(s))
}

proof fn lemma_digits_value_monotone(d: Seq<char>, k: int)
    requires
        0 <= k <= d.len(),
    ensures
        digits_value(d.take(k)) <= digits_value(d),
    decreases d.len() - k,
{
    if k < d.len() {
        lemma_digits_value_monotone(d.drop_last(), k);
        assert(d.drop_last().take(k) =~= d.take(k));
    } else {
        assert(d.take(k) =~= d);
    }
}

/// Reads characters `[start, end)` of `s` as `u16`'s `FromStr` would.
fn parse_field(s: &str, start: usize, end: usize) -> (r: Option<u16>)
    requires
        start <= end <= s@.len(),
    ensures
        r == parse_u16_spec(s@.subrange(start as int, end as int)),
{
    let ghost t = s@.subrange(start as int, end as int);
    let mut i = start;
    if start < end && s.get_char(start) == '+' {
        i = start + 1;
    }
    let first = i;
    let ghost d = unsigned_digits(t);
    assert(d =~= s@.subrange(first as int, end as int));
    if first == end {
        return None;
    }
    let mut value: u32 = 0;
    while i < end
        invariant
            first <= i <= end <= s@.len(),
            first < end,
            start <= end,
            d == s@.subrange(first as int, end as int),
            d == unsigned_digits(s@.subrange(start as int, end as int)),
            forall|j: int| 0 <= j < i - first ==> is_ascii_digit(#[trigger] d[j]),
            value == digits_value(d.take(i - first)),
            value <= u16::MAX,
        decreases end - i,
    {
        let c = s.get_char(i);
        assert(d[i - first] == c);
        if !('0' <= c && c <= '9') {
            assert(!is_ascii_digit(d[i - first]));
            return None;
        }
        let digit = (c as u32) - ('0' as u32);
        assert(d.take(i - first + 1).drop_last() =~= d.take(i - first));
        value = value * 10 + digit;
        if value > 0xFFFF {
            proof {
                lemma_digits_value_monotone(d, i - first + 1);
            }
            return None;
        }
        i += 1;
    }
    assert(d.take(end - first) =~= d);
    Some(value as u16)
}

/// The numbers in a face record: the text is split at spaces and slashes,
/// and every field that reads as a `u16` contributes its value, in order.
pub fn get_face_data(input: &str) -> (r: Vec<u16>)
    ensures
        r@ == face_data_spec(input@),
{
    let n = input.unicode_len();
    let mut res: Vec<u16> = Vec::new();
    let mut start: usize = 0;
    let mut i: usize = 0;
    assert(input@.take(0) =~= Seq::<char>::empty());
    while i < n
        invariant
            n == input@.len(),
            start <= i <= n,
            split_fields(input@.take(i as int)).len() >= 1,
            split_fields(input@.take(i as int)).last() == input@.subrange(start as int, i as int),
            res@ == parsed_numbers(split_fields(input@.take(i as int)).drop_last()),
        decreases n - i,
    {
        let c = input.get_char(i);
        let ghost old_fields = split_fields(input@.take(i as int));
        assert(input@.take(i + 1).drop_last() =~= input@.take(i as int));
        assert(input@.take(i + 1).last() == c);
        if c == ' ' || c == '/' {
            let field = parse_field(input, start, i);
            assert(old_fields =~= old_fields.drop_last().push(old_fields.last()));
            match field {
                Some(v) => {
                    res.push(v);
                },
                None => {},
            }
            start = i + 1;
            assert(split_fields(input@.take(i + 1)).drop_last() =~= old_fields);
            assert(input@.subrange(start as int, i + 1) =~= Seq::<char>::empty());
        } else {
            assert(split_fields(input@.take(i + 1)).drop_last() =~= old_fields.drop_last());
            assert(input@.subrange(start as int, i + 1) =~= input@.subrange(
                start as int,
                i as int,
            ).push(c));
        }
        i += 1;
    }
    assert(input@.take(n as int) =~= input@);
    let last = parse_field(input, start, n);
    let ghost fields = split_fields(input@);
    assert(fields =~= fields.drop_last().push(fields.last()));
    match last {
        Some(v) => {
            res.push(v);
        },
        None => {},
    }
    res
}

/// What an OBJ line contributes.
#[derive(Clone, Copy, Debug, PartialEq, Eq, Structural)]
pub enum ObjLine {
    /// `v x y z`: a vertex position.
    Position,
    /// `vt u v`: a texture coordinate.
    TexCoord,
    /// `f ...`: a face.
    Face,
    /// Anything else, which is ignored.
    Other,
}

pub open spec fn starts_with(s: Seq<char>, prefix: Seq<char>) -> bool {
    prefix.len() <= s.len() && s.take(prefix.len() as int) == prefix
}

pub open spec fn line_kind(s: Seq<char>) -> ObjLine {
    if starts_with(s, seq!['v', ' ']) {
        ObjLine::Position
    } else if starts_with(s, seq!['v', 't']) {
        ObjLine::TexCoord
    } else if starts_with(s, seq!['f']) {
        ObjLine::Face
    } else {
        ObjLine::Other
    }
}

/// Tells position, texture-coordinate and face lines apart by their prefix.
pub fn classify_line(line: &str) -> (r: ObjLine)
    ensures
        r == line_kind(line@),
{
    let n = line.unicode_len();
    if n == 0 {
        return ObjLine::Other;
    }
    let first = line.get_char(0);
    let second = if n >= 2 {
        Some(line.get_char(1))
    } else {
        None
    };
    proof {
        let l = line@;
        assert(l.take(1) =~= seq![l[0]]);
        assert(seq![l[0]] == seq!['f'] <==> l[0] == 'f') by {
            if seq![l[0]] == seq!['f'] {
                assert(seq![l[0]][0] == seq!['f'][0]);
            }
        }
        if n >= 2 {
            assert(l.take(2) =~= seq![l[0], l[1]]);
            assert(seq![l[0], l[1]] == seq!['v', ' '] <==> (l[0] == 'v' && l[1] == ' ')) by {
                if seq![l[0], l[1]] == seq!['v', ' '] {
                    assert(seq![l[0], l[1]][0] == seq!['v', ' '][0]);
                    assert(seq![l[0], l[1]][1] == seq!['v', ' '][1]);
                }
            }
            assert(seq![l[0], l[1]] == seq!['v', 't'] <==> (l[0] == 'v' && l[1] == 't')) by {
                if seq![l[0], l[1]] == seq!['v', 't'] {
                    assert(seq![l[0], l[1]][0] == seq!['v', 't'][0]);
                    assert(seq![l[0], l[1]][1] == seq!['v', 't'][1]);
                }
            }
        }
    }
    if first == 'v' {
        match second {
            Some(' ') => ObjLine::Position,
            Some('t') => ObjLine::TexCoord,
            _ => ObjLine::Other,
        }
    } else if first == 'f' {
        ObjLine::Face
    } else {
        ObjLine::Other
    }
}

/// Reasons a face record is refused.
#[derive(Clone, Copy, Debug, PartialEq, Eq, Structural)]
pub enum ObjError {
    /// Fewer than eight numbers: a face needs `v/vt/..` for three corners.
    MissingFaceData,
    /// A corner names a position or texture coordinate that was not read (they count from 1).
    ReferenceOutOfRange,
    /// The mesh would hold more vertices than 16-bit indices can name.
    TooManyVertices,
}

/// Contents of a mesh under assembly.
pub struct ObjView {
    pub positions: Seq<[u32; 3]>,
    pub tex_coords: Seq<[u32; 2]>,
    pub vertices: Seq<Vertex>,
    pub indices: Seq<u16>,
}

/// Whether `r` is a 1-based reference into a list of `len` items.
pub open spec fn reference_in_range(r: u16, len: nat) -> bool {
    1 <= r && r <= len
}

/// Why the face with numbers `data` cannot be added to `s`, if it cannot.
pub open spec fn face_error(s: ObjView, data: Seq<u16>) -> Option<ObjError> {
    if data.len() < 8 {
        Some(ObjError::MissingFaceData)
    } else if !(reference_in_range(data[0], s.positions.len()) && reference_in_range(
        data[1],
        s.tex_coords.len(),
    ) && reference_in_range(data[3], s.positions.len()) && reference_in_range(
        data[4],
        s.tex_coords.len(),
    ) && reference_in_range(data[6], s.positions.len()) && reference_in_range(
        data[7],
        s.tex_coords.len(),
    )) {
        Some(ObjError::ReferenceOutOfRange)
    } else if s.vertices.len() + 3 > u16::MAX + 1 {
        Some(ObjError::TooManyVertices)
    } else {
        None
    }
}

/// Corner `k` (0, 1 or 2) of a face: the position and texture coordinate it names.
pub open spec fn face_corner(s: ObjView, data: Seq<u16>, k: int) -> Vertex {
    Vertex {
        position: s.positions[data[3 * k] - 1],
        tex_coords: s.tex_coords[data[3 * k + 1] - 1],
    }
}

/// The contents after the face with numbers `data` is added: three new
/// vertices and one triangle over them, listed as corners 0, 2, 1.
pub open spec fn after_face(s: ObjView, data: Seq<u16>) -> ObjView {
    let start = s.vertices.len();
    ObjView {
        positions: s.positions,
        tex_coords: s.tex_coords,
        vertices: s.vertices + seq![
            face_corner(s, data, 0),
            face_corner(s, data, 1),
            face_corner(s, data, 2),
        ],
        indices: s.indices + seq![start as u16, (start + 2) as u16, (start + 1) as u16],
    }
}

/// Assembles a mesh from the lines of an OBJ file, in file order.
pub struct ObjMeshBuilder {
    positions: Vec<[u32; 3]>,
    tex_coords: Vec<[u32; 2]>,
    vertices: Vec<Vertex>,
    indices: Vec<u16>,
}

impl View for ObjMeshBuilder {
    type V = ObjView;

    closed spec fn view(&self) -> ObjView {
        ObjView {
            positions: self.positions@,
            tex_coords: self.tex_coords@,
            vertices: self.vertices@,
            indices: self.indices@,
        }
    }
}

impl ObjMeshBuilder {
    pub fn new() -> (r: ObjMeshBuilder)
        ensures
            r@.positions.len() == 0,
            r@.tex_coords.len() == 0,
            r@.vertices.len() == 0,
            r@.indices.len() == 0,
    {
        ObjMeshBuilder {
            positions: Vec::new(),
            tex_coords: Vec::new(),
            vertices: Vec::new(),
            indices: Vec::new(),
        }
    }

    /// Records the position of a `v` line.
    pub fn push_position(&mut self, position: [u32; 3])
        ensures
            final(self)@ == (ObjView { positions: old(self)@.positions.push(position), ..old(self)@ }),
    {
        self.positions.push(position);
    }

    /// Records the texture coordinate of a `vt` line.
    pub fn push_tex_coord(&mut self, tex_coords: [u32; 2])
        ensures
            final(self)@ == (ObjView {
                tex_coords: old(self)@.tex_coords.push(tex_coords),
                ..old(self)@
            }),
    {
        self.tex_coords.push(tex_coords);
    }

    /// Adds the triangle of an `f` line; a refused line changes nothing.
    pub fn push_face(&mut self, line: &str) -> (r: Result<(), ObjError>)
        ensures
            match face_error(old(self)@, face_data_spec(line@)) {
                Some(e) => r == Err::<(), ObjError>(e) && final(self)@ == old(self)@,
                None => r is Ok && final(self)@ == after_face(old(self)@, face_data_spec(line@)),
            },
    {
        let data = get_face_data(line);
        if data.len() < 8 {
            return Err(ObjError::MissingFaceData);
        }
        let np = self.positions.len();
        let nt = self.tex_coords.len();
        if !(1 <= data[0] && data[0] as usize <= np && 1 <= data[1] && data[1] as usize <= nt && 1
            <= data[3] && data[3] as usize <= np && 1 <= data[4] && data[4] as usize <= nt && 1
            <= data[6] && data[6] as usize <= np && 1 <= data[7] && data[7] as usize <= nt) {
            return Err(ObjError::ReferenceOutOfRange);
        }
        let start = self.vertices.len();
        if start > 0xFFFF - 2 {
            return Err(ObjError::TooManyVertices);
        }
        let ghost s = self@;
        let a = Vertex {
            position: self.positions[data[0] as usize - 1],
            tex_coords: self.tex_coords[data[1] as usize - 1],
        };
        let b = Vertex {
            position: self.positions[data[3] as usize - 1],
            tex_coords: self.tex_coords[data[4] as usize - 1],
        };
        let c = Vertex {
            position: self.positions[data[6] as usize - 1],
            tex_coords: self.tex_coords[data[7] as usize - 1],
        };
        self.vertices.push(a);
        self.vertices.push(b);
        self.vertices.push(c);
        self.indices.push(start as u16);
        self.indices.push((start + 2) as u16);
        self.indices.push((start + 1) as u16);
        assert(self@.vertices =~= after_face(s, data@).vertices);
        assert(self@.indices =~= after_face(s, data@).indices);
        Ok(())
    }

    /// The assembled mesh, placed at the identity.
    pub fn finish(self) -> (r: Mesh)
        ensures
            r.vertices@ == self@.vertices,
            r.indices@ == self@.indices,
            r.cframe.is_identity(),
    {
        Mesh { cframe: CFrame::identity(), vertices: self.vertices, indices: self.indices }
    }
}

} // verus!
