use zap::command::{assemble_command, part_file_path, pull_stream_command, push_stream_command, ssh_args};

#[test]
fn part_files() {
    assert_eq!(part_file_path("/tmp/out", 12), "/tmp/out/stream_12.bin");
    assert_eq!(push_stream_command("/r", 3), "cat > /r/stream_3.bin");
}

#[test]
fn dd_commands() {
    assert_eq!(
        pull_stream_command("/data/f", 1_048_576, 3_145_728),
        "dd if=/data/f bs=1048576 skip=1 count=2 status=none"
    );
    assert_eq!(
        pull_stream_command("/data/f", 0, 1_048_577),
        "dd if=/data/f bs=1048576 skip=0 count=2 status=none"
    );
    assert_eq!(pull_stream_command("/f", 5, 5), "dd if=/f bs=1048576 skip=0 count=0 status=none");
}

#[test]
fn ssh_arguments() {
    assert_eq!(ssh_args(22, None, "u", "h", "true"), vec![
        "-p", "22", "-o", "StrictHostKeyChecking=no", "u@h", "true",
    ]);
    assert_eq!(ssh_args(2200, Some("/k"), "u", "h", "ls"), vec![
        "-i", "/k", "-p", "2200", "-o", "StrictHostKeyChecking=no", "u@h", "ls",
    ]);
}

#[test]
fn assembly_command() {
    assert_eq!(
        assemble_command("u", "h", "/r", None, 2, "/tmp/a.bin", 22),
        Some(
            "ssh -p 22  -o StrictHostKeyChecking=no u@h 'rm -f /r/a.bin; cat /r/stream_0.bin >> \"/r/a.bin\" && rm /r/stream_0.bin;cat /r/stream_1.bin >> \"/r/a.bin\" && rm /r/stream_1.bin;'"
                .to_string()
        )
    );
    assert_eq!(
        assemble_command("u", "h", "/r", Some("/k"), 1, "a.bin", 2222),
        Some(
            "ssh -p 2222 -i /k -o StrictHostKeyChecking=no u@h 'rm -f /r/a.bin; cat /r/stream_0.bin >> \"/r/a.bin\" && rm /r/stream_0.bin;'"
                .to_string()
        )
    );
    assert_eq!(assemble_command("u", "h", "/r", None, 1, "/", 22), None);
}
