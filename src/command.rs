//! Commands for streaming through the `ssh` client program: each stream
//! carries its segment through a temporary part file that is assembled at the
//! end.

use crate::copy::BUFFER_SIZE;
use crate::text::{decimal, push_decimal};
use crate::transfer::file_name_of;
use vstd::prelude::*;

verus! {

/// The part file of stream `k` in `dir`.
pub open spec fn part_file_text(dir: Seq<char>, k: nat) -> Seq<char> {
    dir + "/stream_"@ + decimal(k) + ".bin"@
}

/// Whole buffers needed to hold `bytes` bytes.
pub open spec fn block_count(bytes: nat) -> nat {
    bytes / (BUFFER_SIZE as nat) + if bytes % (BUFFER_SIZE as nat) == 0 {
        0nat
    } else {
        1nat
    }
}

/// The remote command that prints the blocks of `remote_file` holding
/// `[start, end)`.
pub open spec fn pull_command_text(remote_file: Seq<char>, start: nat, end: nat) -> Seq<char> {
    "dd if="@ + remote_file + " bs="@ + decimal(BUFFER_SIZE as nat) + " skip="@ + decimal(
        start / (BUFFER_SIZE as nat),
    ) + " count="@ + decimal(block_count((end - start) as nat)) + " status=none"@
}

/// The remote command that stores its input as the part file of stream `k`.
pub open spec fn push_command_text(remote_path: Seq<char>, k: nat) -> Seq<char> {
    "cat > "@ + part_file_text(remote_path, k)
}

/// Arguments of the `ssh` client that runs `command` as `user` on `host`.
pub open spec fn ssh_args_text(
    port: nat,
    key_path: Option<Seq<char>>,
    user: Seq<char>,
    host: Seq<char>,
    command: Seq<char>,
) -> Seq<Seq<char>> {
    let key = match key_path {
        Some(k) => seq!["-i"@, k],
        None => seq![],
    };
    key + seq![
        "-p"@,
        decimal(port),
        "-o"@,
        "StrictHostKeyChecking=no"@,
        user + "@"@ + host,
        command,
    ]
}

/// Appends part file `k` to `dir/name` and removes it.
pub open spec fn append_part_text(dir: Seq<char>, name: Seq<char>, k: nat) -> Seq<char> {
    "cat "@ + part_file_text(dir, k) + " >> \""@ + dir + "/"@ + name + "\" && rm "@ + part_file_text(
        dir,
        k,
    )
}

/// The commands that append parts `0..n` in order, separated by `;`.
pub open spec fn append_parts_text(dir: Seq<char>, name: Seq<char>, n: nat) -> Seq<char>
    decreases n,
{
    if n == 0 {
        seq![]
    } else if n == 1 {
        append_part_text(dir, name, 0)
    } else {
        append_parts_text(dir, name, (n - 1) as nat) + ";"@ + append_part_text(
            dir,
            name,
            (n - 1) as nat,
        )
    }
}

/// The local shell command that assembles the `n` parts into `dir/name` on
/// the remote host, replacing any earlier file of that name.
pub open spec fn assemble_command_text(
    port: nat,
    key_path: Option<Seq<char>>,
    user: Seq<char>,
    host: Seq<char>,
    dir: Seq<char>,
    name: Seq<char>,
    n: nat,
) -> Seq<char> {
    let key = match key_path {
        Some(k) => "-i "@ + k,
        None => ""@,
    };
    "ssh -p "@ + decimal(port) + " "@ + key + " -o StrictHostKeyChecking=no "@ + user + "@"@ + host
        + " 'rm -f "@ + dir + "/"@ + name + "; "@ + append_parts_text(dir, name, n) + ";'"@
}

fn push_part_file(s: &mut String, dir: &str, k: usize)
    ensures
        final(s)@ == old(s)@ + part_file_text(dir@, k as nat),
{
    s.append(dir);
    s.append("/stream_");
    push_decimal(s, k as u128);
    s.append(".bin");
    assert(s@ =~= old(s)@ + part_file_text(dir@, k as nat));
}

/// The part file of stream `stream_num` in `dir`: `dir/stream_<n>.bin`.
pub fn part_file_path(dir: &str, stream_num: usize) -> (r: String)
    ensures
        r@ == part_file_text(dir@, stream_num as nat),
{
    let mut s = String::new();
    push_part_file(&mut s, dir, stream_num);
    assert(s@ =~= part_file_text(dir@, stream_num as nat));
    s
}

/// The `dd` command that reads the blocks of `remote_file` holding
/// `[start, end)`.
pub fn pull_stream_command(remote_file: &str, start: usize, end: usize) -> (r: String)
    requires
        start <= end,
    ensures
        r@ == pull_command_text(remote_file@, start as nat, end as nat),
{
    let bytes = end - start;
    let count = bytes / BUFFER_SIZE + if bytes % BUFFER_SIZE == 0 {
        0
    } else {
        1
    };
    let mut s = String::from_str("dd if=");
    s.append(remote_file);
    s.append(" bs=");
    push_decimal(&mut s, BUFFER_SIZE as u128);
    s.append(" skip=");
    push_decimal(&mut s, (start / BUFFER_SIZE) as u128);
    s.append(" count=");
    push_decimal(&mut s, count as u128);
    s.append(" status=none");
    s
}

/// The `cat` command that stores stream `stream_num` in `remote_path`.
pub fn push_stream_command(remote_path: &str, stream_num: usize) -> (r: String)
    ensures
        r@ == push_command_text(remote_path@, stream_num as nat),
{
    let mut s = String::from_str("cat > ");
    push_part_file(&mut s, remote_path, stream_num);
    s
}

/// Arguments of the `ssh` client that runs `command` as `user` on `host`,
/// without host key checking.
pub fn ssh_args(port: usize, key_path: Option<&str>, user: &str, host: &str, command: &str) -> (r:
    Vec<String>)
    ensures
        r@.len() == ssh_args_text(
            port as nat,
            crate::location::text_of(key_path),
            user@,
            host@,
            command@,
        ).len(),
        forall|i: int|
            0 <= i < r@.len() ==> #[trigger] r@[i]@ == ssh_args_text(
                port as nat,
                crate::location::text_of(key_path),
                user@,
                host@,
                command@,
            )[i],
{
    let mut r: Vec<String> = Vec::new();
    match key_path {
        Some(k) => {
            r.push(String::from_str("-i"));
            r.push(String::from_str(k));
        },
        None => {},
    }
    r.push(String::from_str("-p"));
    let mut p = String::new();
    push_decimal(&mut p, port as u128);
    r.push(p);
    r.push(String::from_str("-o"));
    r.push(String::from_str("StrictHostKeyChecking=no"));
    let mut target = String::from_str(user);
    target.append("@");
    target.append(host);
    r.push(target);
    r.push(String::from_str(command));
    let ghost want = ssh_args_text(
        port as nat,
        crate::location::text_of(key_path),
        user@,
        host@,
        command@,
    );
    assert(r@.len() == want.len());
    assert forall|i: int| 0 <= i < r@.len() implies #[trigger] r@[i]@ == want[i] by {}
    r
}

/// The shell command that assembles the parts of `num_streams` streams into
/// the file named as `input_file` is, in `remote_path` on the remote host;
/// none when `input_file` has no file name.
pub fn assemble_command(
    remote_user: &str,
    remote_host: &str,
    remote_path: &str,
    key_path: Option<&str>,
    num_streams: usize,
    input_file: &str,
    port: usize,
) -> (r: Option<String>)
    ensures
        match file_name_of(input_file@) {
            Some(name) => r is Some && r->Some_0@ == assemble_command_text(
                port as nat,
                crate::location::text_of(key_path),
                remote_user@,
                remote_host@,
                remote_path@,
                name,
                num_streams as nat,
            ),
            None => r is None,
        },
{
    let name = match crate::transfer::path_file_name(input_file) {
        Some(n) => n,
        None => {
            return None;
        },
    };
    let mut s = String::from_str("ssh -p ");
    push_decimal(&mut s, port as u128);
    s.append(" ");
    match key_path {
        Some(k) => {
            s.append("-i ");
            s.append(k);
        },
        None => {},
    }
    s.append(" -o StrictHostKeyChecking=no ");
    s.append(remote_user);
    s.append("@");
    s.append(remote_host);
    s.append(" 'rm -f ");
    s.append(remote_path);
    s.append("/");
    s.append(name.as_str());
    s.append("; ");
    let ghost prefix = s@;
    let mut i: usize = 0;
    while i < num_streams
        invariant
            i <= num_streams,
            s@ == prefix + append_parts_text(remote_path@, name@, i as nat),
        decreases num_streams - i,
    {
        if i > 0 {
            s.append(";");
        }
        s.append("cat ");
        push_part_file(&mut s, remote_path, i);
        s.append(" >> \"");
        s.append(remote_path);
        s.append("/");
        s.append(name.as_str());
        s.append("\" && rm ");
        push_part_file(&mut s, remote_path, i);
        proof {
            if i == 0 {
                assert(append_parts_text(remote_path@, name@, 0) =~= seq![]);
            }
        }
        assert(s@ =~= prefix + append_parts_text(remote_path@, name@, (i + 1) as nat));
        i = i + 1;
    }
    s.append(";'");
    proof {
        reveal_strlit("");
    }
    assert(s@ =~= assemble_command_text(
        port as nat,
        crate::location::text_of(key_path),
        remote_user@,
        remote_host@,
        remote_path@,
        name@,
        num_streams as nat,
    ));
    Some(s)
}

} // verus!
