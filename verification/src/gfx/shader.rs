//! Descriptors of compiled shader stages and linked shader programs.

use crate::gfx::error::GfxError;
use vstd::prelude::*;
use vstd::string::StringSliceAdditionalSpecFns;

verus! {

/// Whether a status word that the device reports after a compilation or a
/// link says that it failed. The device reports a failure as zero.
pub open spec fn reports_failure(status: i32) -> bool {
    status == 0
}

/// Whether a status word that the device reports after a compilation or a
/// link says that it failed, in which case its diagnostic log is worth
/// reading.
#[verifier::when_used_as_spec(reports_failure)]
pub fn status_reports_failure(status: i32) -> (failed: bool)
    ensures
        failed == reports_failure(status),
{
    status == 0
}

/// A compiled shader stage: its device handle, its stage kind and the
/// source text it was compiled from. None of the three changes while the
/// shader lives.
#[derive(Debug)]
pub struct Shader {
    handle: u32,
    shader_type: u32,
    source: String,
}

impl Clone for Shader {
    /// Another name of the same compiled stage.
    fn clone(&self) -> (copy: Shader)
        ensures
            copy.spec_handle() == self.spec_handle(),
            copy.spec_type() == self.spec_type(),
            copy.spec_source() == self.spec_source(),
    {
        Shader { handle: self.handle, shader_type: self.shader_type, source: self.source.clone() }
    }
}

impl Shader {
    pub closed spec fn spec_handle(&self) -> u32 {
        self.handle
    }

    pub closed spec fn spec_type(&self) -> u32 {
        self.shader_type
    }

    pub closed spec fn spec_source(&self) -> Seq<char> {
        self.source@
    }

    /// Judges the compilation of `source` as a stage of kind `shader_type`
    /// under the device object `handle`. `status` is the compile status
    /// that the device reported, zero for a failure, and `log` its
    /// diagnostic log.
    ///
    /// A null handle means that the device created no shader object. A
    /// failed compilation gives no shader either, and the error carries the
    /// log.
    pub fn from_string(handle: u32, shader_type: u32, source: &str, status: i32, log: String) -> (shader:
        Result<Shader, GfxError>)
        ensures
            handle == 0 ==> shader == Err::<Shader, GfxError>(GfxError::ResourceCreationFailure),
            handle != 0 && reports_failure(status) ==> shader == Err::<Shader, GfxError>(
                GfxError::CompileError(log),
            ),
            handle != 0 && !reports_failure(status) ==> shader is Ok,
            shader matches Ok(s) ==> {
                &&& s.spec_handle() == handle
                &&& s.spec_type() == shader_type
                &&& s.spec_source() == source@
            },
    {
        if handle == 0 {
            Err(GfxError::ResourceCreationFailure)
        } else if status_reports_failure(status) {
            Err(GfxError::CompileError(log))
        } else {
            Ok(Shader { handle, shader_type, source: source.to_owned() })
        }
    }

    #[verifier::when_used_as_spec(spec_handle)]
    pub fn get_handle(&self) -> (handle: u32)
        ensures
            handle == self.spec_handle(),
    {
        self.handle
    }

    #[verifier::when_used_as_spec(spec_type)]
    pub fn get_type(&self) -> (shader_type: u32)
        ensures
            shader_type == self.spec_type(),
    {
        self.shader_type
    }

    pub fn get_source(&self) -> (source: &str)
        ensures
            source@ == self.spec_source(),
    {
        self.source.as_str()
    }
}

/// One active uniform as the device enumerates it after a link: the name
/// buffer that the device filled, the length of the name inside that
/// buffer, and the location that the name resolved to.
#[derive(Clone, Debug)]
pub struct ActiveUniform {
    pub name: Vec<u8>,
    pub name_len: i32,
    pub location: i32,
}

/// The name inside a name buffer: its first `name_len` bytes, or all of the
/// buffer where `name_len` is not a length inside it.
pub open spec fn uniform_name(buffer: Seq<u8>, name_len: i32) -> Seq<u8> {
    if 0 <= name_len < buffer.len() {
        buffer.subrange(0, name_len as int)
    } else {
        buffer
    }
}

/// The table from names to locations that a run of enumerated uniforms
/// builds. Where a name is enumerated twice, the later location stands.
pub open spec fn uniform_table(active: Seq<ActiveUniform>) -> Map<Seq<u8>, i32>
    decreases active.len(),
{
    if active.len() == 0 {
        Map::empty()
    } else {
        uniform_table(active.drop_last()).insert(
            uniform_name(active.last().name@, active.last().name_len),
            active.last().location,
        )
    }
}

/// A value to write to a uniform location of the bound program.
#[derive(Clone, Copy, Debug, PartialEq, Eq, Structural)]
pub struct UniformWrite {
    pub location: i32,
    pub value: u32,
}

#[derive(Debug)]
struct UniformSlot {
    name: Vec<u8>,
    location: i32,
}

spec fn distinct_names(slots: Seq<UniformSlot>) -> bool {
    forall|i: int, j: int|
        0 <= i < j < slots.len() ==> (#[trigger] slots[i]).name@ != (#[trigger] slots[j]).name@
}

spec fn slot_table(slots: Seq<UniformSlot>) -> Map<Seq<u8>, i32>
    decreases slots.len(),
{
    if slots.len() == 0 {
        Map::empty()
    } else {
        slot_table(slots.drop_last()).insert(slots.last().name@, slots.last().location)
    }
}

proof fn lemma_slot_table_keys(slots: Seq<UniformSlot>, name: Seq<u8>)
    ensures
        slot_table(slots).contains_key(name) <==> exists|i: int|
            0 <= i < slots.len() && (#[trigger] slots[i]).name@ == name,
    decreases slots.len(),
{
    if slots.len() > 0 {
        let front = slots.drop_last();
        lemma_slot_table_keys(front, name);
        if slot_table(slots).contains_key(name) {
            if slots.last().name@ == name {
                assert(slots[slots.len() - 1].name@ == name);
            } else {
                let i = choose|i: int| 0 <= i < front.len() && (#[trigger] front[i]).name@ == name;
                assert(slots[i].name@ == name);
            }
        }
        if exists|i: int| 0 <= i < slots.len() && (#[trigger] slots[i]).name@ == name {
            let i = choose|i: int| 0 <= i < slots.len() && (#[trigger] slots[i]).name@ == name;
            if i < front.len() {
                assert(front[i].name@ == name);
            }
        }
    }
}

proof fn lemma_slot_table_value(slots: Seq<UniformSlot>, i: int)
    requires
        distinct_names(slots),
        0 <= i < slots.len(),
    ensures
        slot_table(slots).contains_key(slots[i].name@),
        slot_table(slots)[slots[i].name@] == slots[i].location,
    decreases slots.len(),
{
    let front = slots.drop_last();
    if i < front.len() {
        assert(distinct_names(front)) by {
            assert forall|a: int, b: int| 0 <= a < b < front.len() implies (#[trigger] front[a]).name@
                != (#[trigger] front[b]).name@ by {
                assert(slots[a].name@ != slots[b].name@);
            }
        }
        lemma_slot_table_value(front, i);
        assert(front[i] == slots[i]);
        assert(slots[i].name@ != slots[slots.len() - 1].name@);
    }
}

proof fn lemma_slot_table_update(slots: Seq<UniformSlot>, i: int, slot: UniformSlot)
    requires
        distinct_names(slots),
        0 <= i < slots.len(),
        slots[i].name@ == slot.name@,
    ensures
        distinct_names(slots.update(i, slot)),
        slot_table(slots.update(i, slot)) == slot_table(slots).insert(slot.name@, slot.location),
    decreases slots.len(),
{
    let updated = slots.update(i, slot);
    assert(distinct_names(updated)) by {
        assert forall|a: int, b: int| 0 <= a < b < updated.len() implies (#[trigger] updated[a]).name@
            != (#[trigger] updated[b]).name@ by {
            assert(slots[a].name@ != slots[b].name@);
        }
    }
    let front = slots.drop_last();
    let last = slots.last();
    if i == slots.len() - 1 {
        assert(updated.drop_last() =~= front);
        assert(slot_table(updated) =~= slot_table(slots).insert(slot.name@, slot.location));
    } else {
        assert(distinct_names(front)) by {
            assert forall|a: int, b: int| 0 <= a < b < front.len() implies (#[trigger] front[a]).name@
                != (#[trigger] front[b]).name@ by {
                assert(slots[a].name@ != slots[b].name@);
            }
        }
        lemma_slot_table_update(front, i, slot);
        assert(updated.drop_last() =~= front.update(i, slot));
        assert(updated.last() == last);
        assert(slots[i].name@ != slots[slots.len() - 1].name@);
        assert(slot_table(updated) =~= slot_table(slots).insert(slot.name@, slot.location));
    }
}

proof fn lemma_slot_table_of_equal_entries(left: Seq<UniformSlot>, right: Seq<UniformSlot>)
    requires
        left.len() == right.len(),
        forall|i: int|
            0 <= i < left.len() ==> (#[trigger] left[i]).name@ == right[i].name@ && left[i].location
                == right[i].location,
    ensures
        slot_table(left) == slot_table(right),
        distinct_names(left) ==> distinct_names(right),
    decreases left.len(),
{
    if left.len() > 0 {
        lemma_slot_table_of_equal_entries(left.drop_last(), right.drop_last());
    }
    if distinct_names(left) {
        assert forall|a: int, b: int| 0 <= a < b < right.len() implies (#[trigger] right[a]).name@
            != (#[trigger] right[b]).name@ by {
            assert(left[a].name@ != left[b].name@);
        }
    }
}

fn bytes_equal(left: &[u8], right: &[u8]) -> (equal: bool)
    ensures
        equal == (left@ == right@),
{
    if left.len() != right.len() {
        return false;
    }
    let mut i: usize = 0;
    while i < left.len()
        invariant
            left.len() == right.len(),
            i <= left.len(),
            forall|k: int| 0 <= k < i ==> left@[k] == right@[k],
        decreases left.len() - i,
    {
        if left[i] != right[i] {
            return false;
        }
        i += 1;
    }
    assert(left@ =~= right@);
    true
}

fn find_slot(slots: &Vec<UniformSlot>, name: &[u8]) -> (found: Option<usize>)
    ensures
        match found {
            Some(i) => i < slots.len() && slots[i as int].name@ == name@,
            None => forall|k: int| 0 <= k < slots.len() ==> (#[trigger] slots[k]).name@ != name@,
        },
{
    let mut i: usize = 0;
    while i < slots.len()
        invariant
            i <= slots.len(),
            forall|k: int| 0 <= k < i ==> (#[trigger] slots[k]).name@ != name@,
        decreases slots.len() - i,
    {
        if bytes_equal(slots[i].name.as_slice(), name) {
            return Some(i);
        }
        i += 1;
    }
    None
}

fn name_in_buffer(buffer: &Vec<u8>, name_len: i32) -> (name: Vec<u8>)
    ensures
        name@ == uniform_name(buffer@, name_len),
{
    let end: usize = if 0 <= name_len && (name_len as usize) < buffer.len() {
        name_len as usize
    } else {
        buffer.len()
    };
    let mut name: Vec<u8> = Vec::new();
    let mut i: usize = 0;
    while i < end
        invariant
            i <= end <= buffer.len(),
            name@ == buffer@.subrange(0, i as int),
        decreases end - i,
    {
        name.push(buffer[i]);
        i += 1;
        assert(name@ =~= buffer@.subrange(0, i as int));
    }
    assert(buffer@.subrange(0, buffer.len() as int) =~= buffer@);
    name
}

/// A linked shader program: its device handle and the table that resolves
/// the name of each of its active uniforms to a location. The table is
/// built once, at link time.
#[derive(Debug)]
pub struct ShaderProgram {
    handle: u32,
    uniforms: Vec<UniformSlot>,
}

impl Clone for ShaderProgram {
    fn clone(&self) -> (copy: ShaderProgram)
        ensures
            copy.spec_handle() == self.spec_handle(),
            copy.uniforms() == self.uniforms(),
    {
        proof {
            use_type_invariant(self);
        }
        let mut slots: Vec<UniformSlot> = Vec::new();
        let mut i: usize = 0;
        while i < self.uniforms.len()
            invariant
                i <= self.uniforms.len(),
                slots.len() == i,
                forall|k: int|
                    0 <= k < i ==> (#[trigger] self.uniforms[k]).name@ == slots[k].name@
                        && self.uniforms[k].location == slots[k].location,
            decreases self.uniforms.len() - i,
        {
            let name = name_in_buffer(&self.uniforms[i].name, -1);
            slots.push(UniformSlot { name, location: self.uniforms[i].location });
            i += 1;
        }
        proof {
            lemma_slot_table_of_equal_entries(self.uniforms@, slots@);
        }
        ShaderProgram { handle: self.handle, uniforms: slots }
    }
}

impl ShaderProgram {
    #[verifier::type_invariant]
    spec fn no_name_twice(self) -> bool {
        distinct_names(self.uniforms@)
    }

    pub closed spec fn spec_handle(&self) -> u32 {
        self.handle
    }

    /// The location of each active uniform, by the bytes of its name.
    pub closed spec fn uniforms(&self) -> Map<Seq<u8>, i32> {
        slot_table(self.uniforms@)
    }

    /// The device handles of `shaders`, in order: the stages to attach
    /// before a link and to detach after it.
    pub fn stage_handles(shaders: &[Shader]) -> (handles: Vec<u32>)
        ensures
            handles@ == Seq::new(shaders@.len(), |i: int| shaders@[i].spec_handle()),
    {
        let mut handles: Vec<u32> = Vec::new();
        let mut i: usize = 0;
        while i < shaders.len()
            invariant
                i <= shaders.len(),
                handles@ == Seq::new(i as nat, |k: int| shaders@[k].spec_handle()),
            decreases shaders.len() - i,
        {
            handles.push(shaders[i].get_handle());
            i += 1;
            assert(handles@ =~= Seq::new(i as nat, |k: int| shaders@[k].spec_handle()));
        }
        handles
    }

    /// Judges the link of the program object `handle`. `status` is the link
    /// status that the device reported, zero for a failure, `log` its
    /// diagnostic log, and `active` the active uniforms that it enumerated.
    ///
    /// A failed link gives no program, and the error carries the log. A
    /// program that linked resolves exactly the enumerated names.
    pub fn from_shaders(handle: u32, status: i32, log: String, active: &[ActiveUniform]) -> (program:
        Result<ShaderProgram, GfxError>)
        ensures
            reports_failure(status) ==> program == Err::<ShaderProgram, GfxError>(
                GfxError::LinkError(log),
            ),
            !reports_failure(status) ==> program is Ok,
            program matches Ok(p) ==> {
                &&& p.spec_handle() == handle
                &&& p.uniforms() == uniform_table(active@)
            },
    {
        if status_reports_failure(status) {
            return Err(GfxError::LinkError(log));
        }
        let mut slots: Vec<UniformSlot> = Vec::new();
        let mut i: usize = 0;
        while i < active.len()
            invariant
                i <= active.len(),
                distinct_names(slots@),
                slot_table(slots@) == uniform_table(active@.subrange(0, i as int)),
            decreases active.len() - i,
        {
            let name = name_in_buffer(&active[i].name, active[i].name_len);
            let slot = UniformSlot { name, location: active[i].location };
            let ghost before = slots@;
            match find_slot(&slots, slot.name.as_slice()) {
                Some(at) => {
                    proof {
                        lemma_slot_table_update(before, at as int, slot);
                    }
                    slots.set(at, slot);
                },
                None => {
                    slots.push(slot);
                    assert(slots@.drop_last() =~= before);
                },
            }
            i += 1;
            assert(active@.subrange(0, i as int).drop_last() =~= active@.subrange(0, i - 1));
        }
        assert(active@.subrange(0, active.len() as int) =~= active@);
        Ok(ShaderProgram { handle, uniforms: slots })
    }

    /// Resolves `name` for a write of the scalar with bit pattern `value`.
    /// A name that the program does not have is not an error: there is then
    /// nothing to write.
    pub fn set_float(&self, name: &str, value: u32) -> (write: Option<UniformWrite>)
        ensures
            write is Some <==> self.uniforms().contains_key(name.spec_bytes()),
            write matches Some(w) ==> {
                &&& w.location == self.uniforms()[name.spec_bytes()]
                &&& w.value == value
            },
    {
        proof {
            use_type_invariant(self);
            lemma_slot_table_keys(self.uniforms@, name.spec_bytes());
        }
        match find_slot(&self.uniforms, name.as_bytes()) {
            Some(at) => {
                proof {
                    lemma_slot_table_value(self.uniforms@, at as int);
                }
                Some(UniformWrite { location: self.uniforms[at].location, value })
            },
            None => None,
        }
    }

    #[verifier::when_used_as_spec(spec_handle)]
    pub fn get_handle(&self) -> (handle: u32)
        ensures
            handle == self.spec_handle(),
    {
        self.handle
    }
}

} // verus!
