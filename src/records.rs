use crate::constants::{
    PERF_RECORD_MISC_COMM_EXEC, PERF_RECORD_MISC_MMAP_BUILD_ID, PERF_RECORD_MISC_MMAP_DATA,
    PERF_RECORD_MISC_SWITCH_OUT, PERF_RECORD_MISC_SWITCH_OUT_PREEMPT,
};
use crate::endian::Endianness;
use crate::error::DecodeError;
use crate::raw_data::{
    is_first_zero, read_i32_at, read_u32_at, read_u64_at, read_u8_at, skip_at, split_off_at,
    uint_at, RawData,
};
use crate::types::{cpu_mode_of, CpuMode};
use vstd::prelude::*;

verus! {

/// The string at the front of `s`: the bytes before the first zero byte, or
/// all of `s` if it holds no zero byte.
pub open spec fn cstr_of(s: Seq<u8>) -> Seq<u8> {
    if exists|i: int| is_first_zero(s, i) {
        s.take(choose|i: int| is_first_zero(s, i))
    } else {
        s
    }
}

proof fn lemma_first_zero_unique(s: Seq<u8>, i: int, j: int)
    requires
        is_first_zero(s, i),
        is_first_zero(s, j),
    ensures
        i == j,
{
    if i < j {
        assert(s[i] == 0);
    } else if j < i {
        assert(s[j] == 0);
    }
}

/// Reads the string at `pos` of `s`: up to the first zero byte, which is
/// consumed too; without one, the rest of the data.
fn read_cstr_at<'a>(data: &mut RawData<'a>, Ghost(s): Ghost<Seq<u8>>, Ghost(pos): Ghost<int>) -> (r: RawData<'a>)
    requires
        0 <= pos <= s.len(),
        old(data)@ == s.skip(pos),
    ensures
        r@ == cstr_of(s.skip(pos)),
{
    let rest = *data;
    let ghost t = s.skip(pos);
    match data.read_string() {
        Some(name) => {
            proof {
                let i = name@.len() as int;
                assert(is_first_zero(t, i));
                let j = choose|j: int| is_first_zero(t, j);
                lemma_first_zero_unique(t, i, j);
            }
            name
        },
        None => {
            proof {
                assert forall|i: int| !is_first_zero(t, i) by {
                    if is_first_zero(t, i) {
                        assert(t[i] == 0);
                    }
                }
            }
            rest
        },
    }
}

/// What parsing the fork or exit body `s` gives.
pub open spec fn fork_exit_parsed(s: Seq<u8>, endian: Endianness, r: Result<ForkOrExitRecord, DecodeError>) -> bool {
    match r {
        Ok(rec) => {
                                &&& 24 <= s.len()
            &&& rec.pid == uint_at(s, 0, 4, endian) as i32
            &&& rec.ppid == uint_at(s, 4, 4, endian) as i32
            &&& rec.tid == uint_at(s, 8, 4, endian) as i32
            &&& rec.ptid == uint_at(s, 12, 4, endian) as i32
            &&& rec.timestamp as nat == uint_at(s, 16, 8, endian)
        },
        Err(e) => e == DecodeError::UnexpectedEnd && s.len() < 24,
    }
}

/// What parsing the comm body `s` gives.
pub open spec fn comm_parsed(s: Seq<u8>, misc: u16, endian: Endianness, r: Result<CommOrExecRecord, DecodeError>) -> bool {
    match r {
        Ok(rec) => {
                                &&& 8 <= s.len()
            &&& rec.pid == uint_at(s, 0, 4, endian) as i32
            &&& rec.tid == uint_at(s, 4, 4, endian) as i32
            &&& rec.name@ == cstr_of(s.skip(8))
            &&& rec.is_execve == (misc & PERF_RECORD_MISC_COMM_EXEC != 0)
        },
        Err(e) => e == DecodeError::UnexpectedEnd && s.len() < 8,
    }
}

/// What parsing the mmap body `s` gives.
pub open spec fn mmap_parsed(s: Seq<u8>, misc: u16, endian: Endianness, r: Result<MmapRecord, DecodeError>) -> bool {
    match r {
        Ok(rec) => {
                                &&& 32 <= s.len()
            &&& rec.pid == uint_at(s, 0, 4, endian) as i32
            &&& rec.tid == uint_at(s, 4, 4, endian) as i32
            &&& rec.address as nat == uint_at(s, 8, 8, endian)
            &&& rec.length as nat == uint_at(s, 16, 8, endian)
            &&& rec.page_offset as nat == uint_at(s, 24, 8, endian)
            &&& rec.path@ == cstr_of(s.skip(32))
            &&& rec.is_executable == (misc & PERF_RECORD_MISC_MMAP_DATA == 0)
            &&& rec.cpu_mode == cpu_mode_of(misc)
        },
        Err(e) => e == DecodeError::UnexpectedEnd && s.len() < 32,
    }
}

/// What parsing the mmap2 body `s` gives.
pub open spec fn mmap2_parsed(s: Seq<u8>, misc: u16, endian: Endianness, r: Result<Mmap2Record, DecodeError>) -> bool {
    match r {
        Ok(rec) => {
                                &&& mmap2_failure(s, misc) is None
            &&& rec.pid == uint_at(s, 0, 4, endian) as i32
            &&& rec.tid == uint_at(s, 4, 4, endian) as i32
            &&& rec.address as nat == uint_at(s, 8, 8, endian)
            &&& rec.length as nat == uint_at(s, 16, 8, endian)
            &&& rec.page_offset as nat == uint_at(s, 24, 8, endian)
            &&& if misc & PERF_RECORD_MISC_MMAP_BUILD_ID != 0 {
                &&& rec.file_id is BuildId
                &&& rec.file_id->BuildId_0@ == s.subrange(36, 36 + s[32] as int)
            } else {
                rec.file_id == Mmap2FileId::InodeAndVersion(
                    Mmap2InodeAndVersion {
                        major: uint_at(s, 32, 4, endian) as u32,
                        minor: uint_at(s, 36, 4, endian) as u32,
                        inode: uint_at(s, 40, 8, endian) as u64,
                        inode_generation: uint_at(s, 48, 8, endian) as u64,
                    },
                )
            }
            &&& rec.protection as nat == uint_at(s, 56, 4, endian)
            &&& rec.flags as nat == uint_at(s, 60, 4, endian)
            &&& rec.path@ == cstr_of(s.skip(64))
            &&& rec.cpu_mode == cpu_mode_of(misc)
        },
        Err(e) => mmap2_failure(s, misc) == Some(e),
    }
}

/// What parsing the lost-records body `s` gives.
pub open spec fn lost_parsed(s: Seq<u8>, endian: Endianness, r: Result<LostRecord, DecodeError>) -> bool {
    match r {
        Ok(rec) => {
            &&& 16 <= s.len()
            &&& rec.id as nat == uint_at(s, 0, 8, endian)
            &&& rec.count as nat == uint_at(s, 8, 8, endian)
        },
        Err(e) => e == DecodeError::UnexpectedEnd && s.len() < 16,
    }
}

/// What parsing the throttle body `s` gives: the timestamp comes first.
pub open spec fn throttle_parsed(s: Seq<u8>, endian: Endianness, r: Result<ThrottleRecord, DecodeError>) -> bool {
    match r {
        Ok(rec) => {
            &&& 16 <= s.len()
            &&& rec.timestamp as nat == uint_at(s, 0, 8, endian)
            &&& rec.id as nat == uint_at(s, 8, 8, endian)
        },
        Err(e) => e == DecodeError::UnexpectedEnd && s.len() < 16,
    }
}

/// What parsing the CPU-wide context switch body `s` gives.
pub open spec fn switch_cpu_wide_parsed(s: Seq<u8>, misc: u16, endian: Endianness, r: Result<ContextSwitchRecord, DecodeError>) -> bool {
    match r {
        Ok(rec) => {
            &&& 8 <= s.len()
            &&& rec == switch_of(
                misc,
                Some(uint_at(s, 0, 4, endian) as i32),
                Some(uint_at(s, 4, 4, endian) as i32),
            )
        },
        Err(e) => e == DecodeError::UnexpectedEnd && s.len() < 8,
    }
}

#[derive(Debug, Clone, PartialEq, Eq)]
pub struct ForkOrExitRecord {
    pub pid: i32,
    pub ppid: i32,
    pub tid: i32,
    pub ptid: i32,
    pub timestamp: u64,
}

impl ForkOrExitRecord {
    /// Reads pid, ppid, tid, ptid and a timestamp.
    pub fn parse(data: RawData, endian: Endianness) -> (r: Result<Self, DecodeError>)
        ensures
            fork_exit_parsed(data@, endian, r),
    {
        let ghost s = data@;
        let mut cur = data;
        assert(s.skip(0) =~= s);
        let pid = read_i32_at(&mut cur, endian, Ghost(s), Ghost(0))?;
        let ppid = read_i32_at(&mut cur, endian, Ghost(s), Ghost(4))?;
        let tid = read_i32_at(&mut cur, endian, Ghost(s), Ghost(8))?;
        let ptid = read_i32_at(&mut cur, endian, Ghost(s), Ghost(12))?;
        let timestamp = read_u64_at(&mut cur, endian, Ghost(s), Ghost(16))?;
        Ok(Self { pid, ppid, tid, ptid, timestamp })
    }
}

#[derive(Debug, Clone, PartialEq, Eq)]
pub struct CommOrExecRecord<'a> {
    pub pid: i32,
    pub tid: i32,
    pub name: RawData<'a>,
    pub is_execve: bool,
}

impl<'a> CommOrExecRecord<'a> {
    /// Reads pid, tid and the nul-terminated name; a name without its nul
    /// byte runs to the end of the body.
    pub fn parse(data: RawData<'a>, misc: u16, endian: Endianness) -> (r: Result<Self, DecodeError>)
        ensures
            comm_parsed(data@, misc, endian, r),
    {
        let ghost s = data@;
        let mut cur = data;
        assert(s.skip(0) =~= s);
        let pid = read_i32_at(&mut cur, endian, Ghost(s), Ghost(0))?;
        let tid = read_i32_at(&mut cur, endian, Ghost(s), Ghost(4))?;
        let name = read_cstr_at(&mut cur, Ghost(s), Ghost(8));
        let is_execve = misc & PERF_RECORD_MISC_COMM_EXEC != 0;
        Ok(Self { pid, tid, name, is_execve })
    }
}

/// These aren't emitted by the kernel any more - the kernel uses MMAP2 events
/// these days. However, `perf record` still emits synthetic MMAP events (not
/// MMAP2!) for the kernel image, with pid -1.
#[derive(Debug, Clone, PartialEq, Eq)]
pub struct MmapRecord<'a> {
    pub pid: i32,
    pub tid: i32,
    pub address: u64,
    pub length: u64,
    pub page_offset: u64,
    pub is_executable: bool,
    pub cpu_mode: CpuMode,
    pub path: RawData<'a>,
}

impl<'a> MmapRecord<'a> {
    /// Reads pid, tid, address, length, page offset and the path.
    pub fn parse(data: RawData<'a>, misc: u16, endian: Endianness) -> (r: Result<Self, DecodeError>)
        ensures
            mmap_parsed(data@, misc, endian, r),
    {
        let ghost s = data@;
        let mut cur = data;
        assert(s.skip(0) =~= s);
        let pid = read_i32_at(&mut cur, endian, Ghost(s), Ghost(0))?;
        let tid = read_i32_at(&mut cur, endian, Ghost(s), Ghost(4))?;
        let address = read_u64_at(&mut cur, endian, Ghost(s), Ghost(8))?;
        let length = read_u64_at(&mut cur, endian, Ghost(s), Ghost(16))?;
        let page_offset = read_u64_at(&mut cur, endian, Ghost(s), Ghost(24))?;
        let path = read_cstr_at(&mut cur, Ghost(s), Ghost(32));
        let is_executable = misc & PERF_RECORD_MISC_MMAP_DATA == 0;
        Ok(MmapRecord {
            pid,
            tid,
            address,
            length,
            page_offset,
            is_executable,
            cpu_mode: CpuMode::from_misc(misc),
            path,
        })
    }
}

#[derive(Debug, Clone, PartialEq, Eq)]
pub enum Mmap2FileId {
    InodeAndVersion(Mmap2InodeAndVersion),
    BuildId(Vec<u8>),
}

#[derive(Debug, Clone, PartialEq, Eq)]
pub struct Mmap2InodeAndVersion {
    pub major: u32,
    pub minor: u32,
    pub inode: u64,
    pub inode_generation: u64,
}

#[derive(Debug, Clone, PartialEq, Eq)]
pub struct Mmap2Record<'a> {
    pub pid: i32,
    pub tid: i32,
    pub address: u64,
    pub length: u64,
    pub page_offset: u64,
    pub file_id: Mmap2FileId,
    pub protection: u32,
    pub flags: u32,
    pub cpu_mode: CpuMode,
    pub path: RawData<'a>,
}

/// Why an mmap2 body `s` fails to decode, if it does: a short body, or a
/// build id longer than 20 bytes.
pub open spec fn mmap2_failure(s: Seq<u8>, misc: u16) -> Option<DecodeError> {
    if misc & PERF_RECORD_MISC_MMAP_BUILD_ID != 0 && s.len() >= 33 && s[32] > 20 {
        Some(DecodeError::InvalidInput)
    } else if s.len() < 64 {
        Some(DecodeError::UnexpectedEnd)
    } else {
        None
    }
}

impl<'a> Mmap2Record<'a> {
    /// Reads pid, tid, address, length, page offset, the file identity
    /// (a build id if `misc` says so, else device and inode numbers),
    /// protection, flags and the path.
    pub fn parse(data: RawData<'a>, misc: u16, endian: Endianness) -> (r: Result<Self, DecodeError>)
        ensures
            mmap2_parsed(data@, misc, endian, r),
    {
        let ghost s = data@;
        let mut cur = data;
        assert(s.skip(0) =~= s);
        let pid = read_i32_at(&mut cur, endian, Ghost(s), Ghost(0))?;
        let tid = read_i32_at(&mut cur, endian, Ghost(s), Ghost(4))?;
        let address = read_u64_at(&mut cur, endian, Ghost(s), Ghost(8))?;
        let length = read_u64_at(&mut cur, endian, Ghost(s), Ghost(16))?;
        let page_offset = read_u64_at(&mut cur, endian, Ghost(s), Ghost(24))?;
        let file_id = if misc & PERF_RECORD_MISC_MMAP_BUILD_ID != 0 {
            let build_id_len = read_u8_at(&mut cur, Ghost(s), Ghost(32))?;
            if build_id_len > 20 {
                return Err(DecodeError::InvalidInput);
            }
            let _align = read_u8_at(&mut cur, Ghost(s), Ghost(33))?;
            let _align = skip_at(&mut cur, 2, Ghost(s), Ghost(34))?;
            let build_id = split_off_at(&mut cur, build_id_len as usize, Ghost(s), Ghost(36))?;
            skip_at(&mut cur, 20 - build_id_len as usize, Ghost(s), Ghost(36 + build_id_len as int))?;
            Mmap2FileId::BuildId(build_id.as_slice())
        } else {
            let major = read_u32_at(&mut cur, endian, Ghost(s), Ghost(32))?;
            let minor = read_u32_at(&mut cur, endian, Ghost(s), Ghost(36))?;
            let inode = read_u64_at(&mut cur, endian, Ghost(s), Ghost(40))?;
            let inode_generation = read_u64_at(&mut cur, endian, Ghost(s), Ghost(48))?;
            Mmap2FileId::InodeAndVersion(Mmap2InodeAndVersion { major, minor, inode, inode_generation })
        };
        let protection = read_u32_at(&mut cur, endian, Ghost(s), Ghost(56))?;
        let flags = read_u32_at(&mut cur, endian, Ghost(s), Ghost(60))?;
        let path = read_cstr_at(&mut cur, Ghost(s), Ghost(64));
        Ok(Mmap2Record {
            pid,
            tid,
            address,
            length,
            page_offset,
            file_id,
            protection,
            flags,
            cpu_mode: CpuMode::from_misc(misc),
            path,
        })
    }
}

#[derive(Debug, Clone, PartialEq, Eq)]
pub struct LostRecord {
    pub id: u64,
    pub count: u64,
}

impl LostRecord {
    /// Reads the id and then the count of lost records.
    pub fn parse(data: RawData, endian: Endianness) -> (r: Result<Self, DecodeError>)
        ensures
            lost_parsed(data@, endian, r),
    {
        let ghost s = data@;
        let mut cur = data;
        assert(s.skip(0) =~= s);
        let id = read_u64_at(&mut cur, endian, Ghost(s), Ghost(0))?;
        let count = read_u64_at(&mut cur, endian, Ghost(s), Ghost(8))?;
        Ok(LostRecord { id, count })
    }
}

#[derive(Debug, Clone, PartialEq, Eq)]
pub struct ThrottleRecord {
    pub id: u64,
    pub timestamp: u64,
}

impl ThrottleRecord {
    /// Reads the timestamp and then the id.
    pub fn parse(data: RawData, endian: Endianness) -> (r: Result<Self, DecodeError>)
        ensures
            throttle_parsed(data@, endian, r),
    {
        let ghost s = data@;
        let mut cur = data;
        assert(s.skip(0) =~= s);
        let timestamp = read_u64_at(&mut cur, endian, Ghost(s), Ghost(0))?;
        let id = read_u64_at(&mut cur, endian, Ghost(s), Ghost(8))?;
        Ok(ThrottleRecord { id, timestamp })
    }
}

/// Whether a task was in the `TASK_RUNNING` state when it was switched
/// away from.
#[derive(Debug, Clone, Copy, PartialEq, Eq, Hash)]
pub enum TaskWasPreempted {
    /// When switching out, the task was in the `TASK_RUNNING` state.
    Yes,
    /// When switching out, the task was in a non-running state.
    No,
}

#[derive(Debug, Clone, Copy, PartialEq, Eq, Hash)]
pub enum ContextSwitchRecord {
    In { prev_pid: Option<i32>, prev_tid: Option<i32> },
    Out { next_pid: Option<i32>, next_tid: Option<i32>, preempted: TaskWasPreempted },
}

/// The switch that the `misc` bits describe, with the other task's pid and tid.
pub open spec fn switch_of(misc: u16, pid: Option<i32>, tid: Option<i32>) -> ContextSwitchRecord {
    if misc & PERF_RECORD_MISC_SWITCH_OUT != 0 {
        ContextSwitchRecord::Out {
            next_pid: pid,
            next_tid: tid,
            preempted: if misc & PERF_RECORD_MISC_SWITCH_OUT_PREEMPT != 0 {
                TaskWasPreempted::Yes
            } else {
                TaskWasPreempted::No
            },
        }
    } else {
        ContextSwitchRecord::In { prev_pid: pid, prev_tid: tid }
    }
}

impl ContextSwitchRecord {
    pub fn from_misc(misc: u16) -> (r: Self)
        ensures
            r == switch_of(misc, None, None),
    {
        Self::from_misc_pid_tid(misc, None, None)
    }

    /// Reads the other task's pid and tid, then applies the `misc` bits.
    pub fn parse_cpu_wide(data: RawData, misc: u16, endian: Endianness) -> (r: Result<Self, DecodeError>)
        ensures
            switch_cpu_wide_parsed(data@, misc, endian, r),
    {
        let ghost s = data@;
        let mut cur = data;
        assert(s.skip(0) =~= s);
        let pid = read_i32_at(&mut cur, endian, Ghost(s), Ghost(0))?;
        let tid = read_i32_at(&mut cur, endian, Ghost(s), Ghost(4))?;
        Ok(Self::from_misc_pid_tid(misc, Some(pid), Some(tid)))
    }

    pub fn from_misc_pid_tid(misc: u16, pid: Option<i32>, tid: Option<i32>) -> (r: Self)
        ensures
            r == switch_of(misc, pid, tid),
    {
        let is_out = misc & PERF_RECORD_MISC_SWITCH_OUT != 0;
        if is_out {
            let is_out_preempt = misc & PERF_RECORD_MISC_SWITCH_OUT_PREEMPT != 0;
            ContextSwitchRecord::Out {
                next_pid: pid,
                next_tid: tid,
                preempted: if is_out_preempt {
                    TaskWasPreempted::Yes
                } else {
                    TaskWasPreempted::No
                },
            }
        } else {
            ContextSwitchRecord::In { prev_pid: pid, prev_tid: tid }
        }
    }
}

/// What parsing the thread map body `s` gives.
pub open spec fn thread_map_parsed(s: Seq<u8>, endian: Endianness, r: Result<ThreadMap, DecodeError>) -> bool {
    match r {
        Ok(map) => {
            &&& 8 <= s.len()
            &&& map.count as nat == uint_at(s, 0, 8, endian)
            &&& 8 + 24 * map.count <= s.len()
            &&& map.entries@ == s.subrange(8, 8 + 24 * map.count)
        },
        Err(e) => {
            &&& e == DecodeError::UnexpectedEnd
            &&& s.len() < 8 || s.len() < 8 + 24 * uint_at(s, 0, 8, endian)
        },
    }
}

/// The thread list that `perf` writes: a count, then for each thread a
/// 64-bit pid and a 16-byte name.
#[derive(Debug, Clone, PartialEq, Eq)]
pub struct ThreadMap<'a> {
    pub count: u64,
    pub entries: RawData<'a>,
}

impl<'a> ThreadMap<'a> {
    /// Reads the count and splits off the 24-byte entries it announces.
    pub fn parse(data: RawData<'a>, endian: Endianness) -> (r: Result<Self, DecodeError>)
        requires
            data.wf(),
        ensures
            thread_map_parsed(data@, endian, r),
    {
        let ghost s = data@;
        let mut cur = data;
        assert(s.skip(0) =~= s);
        let count = read_u64_at(&mut cur, endian, Ghost(s), Ghost(0))?;
        let size = match (count as usize).checked_mul(24) {
            Some(n) if count <= usize::MAX as u64 => n,
            _ => {
                return Err(DecodeError::UnexpectedEnd);
            },
        };
        let entries = split_off_at(&mut cur, size, Ghost(s), Ghost(8))?;
        Ok(ThreadMap { count, entries })
    }
}

} // verus!
