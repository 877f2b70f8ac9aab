use vstd::prelude::*;
use crate::error::Error;
use vstd::string::StringSliceAdditionalSpecFns;

verus! {

/// The interned property and type atoms that the backend uses.
#[derive(Clone, Copy, Debug, PartialEq, Eq, Structural)]
pub struct Atoms {
    pub wm_protocols: u32,
    pub wm_delete_window: u32,
    pub net_wm_name: u32,
    pub utf8_string: u32,
    pub net_wm_pid: u32,
    pub wm_client_machine: u32,
    pub net_wm_ping: u32,
    pub net_wm_state: u32,
    pub net_wm_state_maximized_horz: u32,
    pub net_wm_state_maximized_vert: u32,
    pub net_wm_state_hidden: u32,
    pub motif_wm_hints: u32,
}

/// How many atoms the backend interns.
pub const ATOM_COUNT: usize = 12;

/// The names of the atoms to intern, in the order of the fields of `Atoms`.
pub fn atom_names() -> (r: Vec<&'static str>)
    ensures
        r@ == seq![
            "WM_PROTOCOLS", "WM_DELETE_WINDOW", "_NET_WM_NAME", "UTF8_STRING", "_NET_WM_PID",
            "WM_CLIENT_MACHINE", "_NET_WM_PING", "_NET_WM_STATE", "_NET_WM_STATE_MAXIMIZED_HORZ",
            "_NET_WM_STATE_MAXIMIZED_VERT", "_NET_WM_STATE_HIDDEN", "_MOTIF_WM_HINTS",
        ],
{
    let r = vec![
        "WM_PROTOCOLS", "WM_DELETE_WINDOW", "_NET_WM_NAME", "UTF8_STRING", "_NET_WM_PID",
        "WM_CLIENT_MACHINE", "_NET_WM_PING", "_NET_WM_STATE", "_NET_WM_STATE_MAXIMIZED_HORZ",
        "_NET_WM_STATE_MAXIMIZED_VERT", "_NET_WM_STATE_HIDDEN", "_MOTIF_WM_HINTS",
    ];
    assert(r@ =~= seq![
        "WM_PROTOCOLS", "WM_DELETE_WINDOW", "_NET_WM_NAME", "UTF8_STRING", "_NET_WM_PID",
        "WM_CLIENT_MACHINE", "_NET_WM_PING", "_NET_WM_STATE", "_NET_WM_STATE_MAXIMIZED_HORZ",
        "_NET_WM_STATE_MAXIMIZED_VERT", "_NET_WM_STATE_HIDDEN", "_MOTIF_WM_HINTS",
    ]);
    r
}

/// Builds the atoms from the server's replies to the intern requests, in the
/// order of `atom_names`; `None` marks a failed request. Interning can fail
/// only for want of memory on the server, so any failure is reported as
/// `SystemResources`; a list of the wrong length is `Invalid`.
pub fn atoms_from_replies(replies: &[Option<u32>]) -> (r: Result<Atoms, Error>)
    ensures
        replies@.len() != ATOM_COUNT ==> r == Err::<Atoms, Error>(Error::Invalid),
        replies@.len() == ATOM_COUNT ==> ((forall|i: int| 0 <= i < ATOM_COUNT ==> (#[trigger] replies@[i]) is Some) <==> r is Ok),
        replies@.len() == ATOM_COUNT ==> (r matches Err(e) ==> e == Error::SystemResources),
        r matches Ok(a) ==> {
            &&& Some(a.wm_protocols) == replies@[0]
            &&& Some(a.wm_delete_window) == replies@[1]
            &&& Some(a.net_wm_name) == replies@[2]
            &&& Some(a.utf8_string) == replies@[3]
            &&& Some(a.net_wm_pid) == replies@[4]
            &&& Some(a.wm_client_machine) == replies@[5]
            &&& Some(a.net_wm_ping) == replies@[6]
            &&& Some(a.net_wm_state) == replies@[7]
            &&& Some(a.net_wm_state_maximized_horz) == replies@[8]
            &&& Some(a.net_wm_state_maximized_vert) == replies@[9]
            &&& Some(a.net_wm_state_hidden) == replies@[10]
            &&& Some(a.motif_wm_hints) == replies@[11]
        },
{
    if replies.len() != ATOM_COUNT {
        return Err(Error::Invalid);
    }
    let mut got: Vec<u32> = Vec::new();
    let mut i: usize = 0;
    while i < ATOM_COUNT
        invariant
            i <= ATOM_COUNT,
            replies@.len() == ATOM_COUNT,
            got@.len() == i,
            forall|j: int| 0 <= j < i ==> replies@[j] == Some(#[trigger] got@[j]),
        decreases ATOM_COUNT - i,
    {
        match replies[i] {
            Some(a) => got.push(a),
            None => {
                assert(!(replies@[i as int] is Some));
                return Err(Error::SystemResources);
            },
        }
        i = i + 1;
    }
    assert forall|i: int| 0 <= i < ATOM_COUNT implies (#[trigger] replies@[i]) is Some by {
        assert(replies@[i] == Some(got@[i]));
    }
    Ok(Atoms {
        wm_protocols: got[0],
        wm_delete_window: got[1],
        net_wm_name: got[2],
        utf8_string: got[3],
        net_wm_pid: got[4],
        wm_client_machine: got[5],
        net_wm_ping: got[6],
        net_wm_state: got[7],
        net_wm_state_maximized_horz: got[8],
        net_wm_state_maximized_vert: got[9],
        net_wm_state_hidden: got[10],
        motif_wm_hints: got[11],
    })
}

/// The protocols a window takes part in, for its `WM_PROTOCOLS` property:
/// deletion by the window manager and liveness pings.
pub fn protocol_atoms(atoms: &Atoms) -> (r: [u32; 2])
    ensures
        r@ == seq![atoms.wm_delete_window, atoms.net_wm_ping],
{
    let r = [atoms.wm_delete_window, atoms.net_wm_ping];
    assert(r@ =~= seq![atoms.wm_delete_window, atoms.net_wm_ping]);
    r
}

/// Connection error codes of the client library.
pub const CONN_OK: i32 = 0;
pub const CONN_CLOSED_EXT_NOTSUPPORTED: i32 = 2;
pub const CONN_CLOSED_MEM_INSUFFICIENT: i32 = 3;

/// The outcome that a connection error code stands for.
pub open spec fn connection_status_of(code: i32) -> Result<(), Error> {
    if code == CONN_OK {
        Ok(())
    } else if code == CONN_CLOSED_EXT_NOTSUPPORTED {
        Err(Error::Unsupported)
    } else if code == CONN_CLOSED_MEM_INSUFFICIENT {
        Err(Error::SystemResources)
    } else {
        Err(Error::Invalid)
    }
}

/// Maps the connection's error code to an outcome.
pub fn connection_status(code: i32) -> (r: Result<(), Error>)
    ensures
        r == connection_status_of(code),
{
    if code == CONN_OK {
        Ok(())
    } else if code == CONN_CLOSED_EXT_NOTSUPPORTED {
        Err(Error::Unsupported)
    } else if code == CONN_CLOSED_MEM_INSUFFICIENT {
        Err(Error::SystemResources)
    } else {
        Err(Error::Invalid)
    }
}

/// The outcome of flushing the requests that create a window: `flushed` is
/// what the flush returned (positive on success), `code` the connection's
/// error code afterwards. A failed flush on a connection without an error
/// is `Unknown`.
pub fn flush_outcome(flushed: i32, code: i32) -> (r: Result<(), Error>)
    ensures
        flushed > 0 ==> r is Ok,
        flushed <= 0 && code != CONN_OK ==> r == connection_status_of(code),
        flushed <= 0 && code == CONN_OK ==> r == Err::<(), Error>(Error::Unknown),
{
    if flushed > 0 {
        Ok(())
    } else {
        match connection_status(code) {
            Ok(()) => Err(Error::Unknown),
            Err(e) => Err(e),
        }
    }
}

/// The value the client library hands out when it has no window id left.
pub const NO_ID: u32 = 0xFFFF_FFFF;

/// Accepts a freshly generated window id, or reports exhaustion.
pub fn checked_window_id(xid: u32) -> (r: Result<u32, Error>)
    ensures
        xid == NO_ID ==> r == Err::<u32, Error>(Error::SystemResources),
        xid != NO_ID ==> r == Ok::<u32, Error>(xid),
{
    if xid == NO_ID {
        Err(Error::SystemResources)
    } else {
        Ok(xid)
    }
}

/// The protocol error code for a failed allocation on the server.
pub const ALLOC_ERROR: u8 = 11;

/// The error a failed window creation reports: the server running out of
/// memory, or else a bad parameter.
pub fn create_window_error(code: u8) -> (r: Error)
    ensures
        code == ALLOC_ERROR ==> r == Error::SystemResources,
        code != ALLOC_ERROR ==> r == Error::Invalid,
{
    if code == ALLOC_ERROR { Error::SystemResources } else { Error::Invalid }
}

/// The input extension's opcode, from the server's reply to the query for
/// it: `None` when no reply came (the server ran out of resources), and a
/// present flag of false when the server lacks the extension.
pub fn input_extension_opcode(reply: Option<(bool, u8)>) -> (r: Result<u8, Error>)
    ensures
        reply is None ==> r == Err::<u8, Error>(Error::SystemResources),
        reply matches Some((present, opcode)) ==> r == (if present { Ok::<u8, Error>(opcode) } else { Err(Error::Unsupported) }),
{
    match reply {
        None => Err(Error::SystemResources),
        Some((present, opcode)) => if present { Ok(opcode) } else { Err(Error::Unsupported) },
    }
}

/// The largest buffer tried for the host name.
pub const HOSTNAME_LIMIT: usize = 65536;

/// The buffer length to try after the host name did not fit in `len` bytes:
/// twice as much, while that stays within the limit.
pub fn next_hostname_len(len: usize) -> (r: Option<usize>)
    ensures
        2 * len <= HOSTNAME_LIMIT ==> r == Some((2 * len) as usize),
        2 * len > HOSTNAME_LIMIT ==> r is None,
{
    if len <= HOSTNAME_LIMIT / 2 {
        Some(len * 2)
    } else {
        None
    }
}

/// Whether `r` is the NUL-terminated host name held in `buf`: the bytes of
/// `buf` up to and including its first NUL, or all of `buf` and a NUL when
/// it holds none.
pub open spec fn is_terminated_name(buf: Seq<u8>, r: Seq<u8>) -> bool {
    let n = r.len() - 1;
    &&& r.len() >= 1
    &&& r.last() == 0
    &&& n <= buf.len()
    &&& r.drop_last() == buf.take(n)
    &&& forall|j: int| 0 <= j < n ==> buf[j] != 0
    &&& n < buf.len() ==> buf[n] == 0
}

/// Cuts the buffer that the system filled with the host name down to the
/// name and its terminating NUL, adding the NUL when the name filled the
/// whole buffer.
pub fn terminate_hostname(buf: &[u8]) -> (r: Vec<u8>)
    ensures
        is_terminated_name(buf@, r@),
{
    let mut out: Vec<u8> = Vec::new();
    let mut i: usize = 0;
    while i < buf.len() && buf[i] != 0
        invariant
            i <= buf@.len(),
            out@ == buf@.take(i as int),
            forall|j: int| 0 <= j < i ==> buf@[j] != 0,
        decreases buf@.len() - i,
    {
        out.push(buf[i]);
        assert(buf@.take(i as int + 1) =~= buf@.take(i as int).push(buf@[i as int]));
        i = i + 1;
    }
    out.push(0);
    assert(out@.drop_last() =~= buf@.take(i as int));
    out
}

/// The instance name for the `WM_CLASS` property: the `RESOURCE_NAME`
/// setting if present, else the file name of the program, else "unknown".
pub fn instance_name(resource_name: Option<String>, program_name: Option<String>) -> (r: String)
    ensures
        resource_name matches Some(s) ==> r@ == s@,
        resource_name is None ==> (program_name matches Some(p) ==> r@ == p@),
        resource_name is None && program_name is None ==> r@ == "unknown"@,
{
    match resource_name {
        Some(s) => s,
        None => match program_name {
            Some(p) => p,
            None => "unknown".to_owned(),
        },
    }
}

/// The value of the `WM_CLASS` property: the instance name and the class
/// name, each followed by a NUL.
pub fn wm_class_bytes(instance: &str, class: &str) -> (r: Vec<u8>)
    ensures
        r@ == instance.spec_bytes() + seq![0u8] + class.spec_bytes() + seq![0u8],
{
    let mut out: Vec<u8> = Vec::new();
    append_bytes(&mut out, instance.as_bytes());
    out.push(0);
    append_bytes(&mut out, class.as_bytes());
    out.push(0);
    assert(out@ =~= instance.spec_bytes() + seq![0u8] + class.spec_bytes() + seq![0u8]);
    out
}

fn append_bytes(out: &mut Vec<u8>, b: &[u8])
    ensures
        final(out)@ == old(out)@ + b@,
{
    let mut i: usize = 0;
    while i < b.len()
        invariant
            i <= b@.len(),
            out@ == old(out)@ + b@.take(i as int),
        decreases b@.len() - i,
    {
        out.push(b[i]);
        assert(b@.take(i as int + 1) =~= b@.take(i as int).push(b@[i as int]));
        i = i + 1;
    }
    assert(b@.take(b@.len() as int) =~= b@);
}

} // verus!
