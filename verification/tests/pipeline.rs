use code_runner::code::to_response;
use code_runner::lang::{Lang, Status};
use code_runner::pipeline::{Effect, Phase, Pipeline};

fn sandbox_run_flags(limit: &str) -> Vec<String> {
    let mut v: Vec<String> = [
        "--quiet",
        "--shell=none",
        "--noroot",
        "--net=none",
        "--blacklist=/home/",
        "--blacklist=/etc/",
        "--blacklist=/boot/",
        "--blacklist=/var/",
    ]
    .iter()
    .map(|s| s.to_string())
    .collect();
    v.push(format!("--rlimit-cpu={}", limit));
    v.push("--seccomp.keep=getcwd,getpid,rt_sigreturn,brk,close,sched_getaffinity,dup,mmap,getuid,rt_sigaction,set_robust_list,set_tid_address,rt_sigprocmask,pread64,sysinfo,gettid,getdents64,lseek,geteuid,sigaltstack,getrandom,clone,futex,arch_prctl,fcntl,poll,readlink,access,mprotect,munmap,write,prlimit64,newfstatat,getegid,exit_group,readlinkat,ioctl,openat,read,getgid".to_string());
    v
}

fn is_token_text(t: &str) -> bool {
    t.len() == 36 && t.chars().all(|c| c.is_ascii_hexdigit() || c == '-')
}

fn two(mut effs: Vec<Effect>) -> (Effect, Effect) {
    assert_eq!(effs.len(), 2);
    let b = effs.pop().unwrap();
    let a = effs.pop().unwrap();
    (a, b)
}

fn three(mut effs: Vec<Effect>) -> (Effect, Effect, Effect) {
    assert_eq!(effs.len(), 3);
    let c = effs.pop().unwrap();
    let b = effs.pop().unwrap();
    let a = effs.pop().unwrap();
    (a, b, c)
}

#[test]
fn python3_clean_run_returns_stdout_exactly() {
    let (mut p, eff) = Pipeline::start(
        Lang::Python3,
        "print(\"hi\")".to_string(),
        String::new(),
        5,
    );
    let src_name = match eff {
        Effect::CreateFile { ref name, ref contents } => {
            assert_eq!(contents, "print(\"hi\")");
            assert!(name.ends_with(".py"));
            name.clone()
        }
        _ => panic!("expected the workspace file first"),
    };
    let run = p.on_file_written();
    match run {
        Effect::Spawn { command, stdin } => {
            assert_eq!(command.program, "firejail");
            let mut expected = sandbox_run_flags("5");
            expected.push("python3".to_string());
            expected.push(src_name.clone());
            assert_eq!(command.args, expected);
            assert!(stdin.is_none());
        }
        _ => panic!("expected the interpreter run"),
    }
    let (removed, responded) = two(p.on_run_done("hi\n".to_string(), String::new(), false));
    match removed {
        Effect::RemoveFile { name } => assert_eq!(name, src_name),
        _ => panic!("expected the workspace file removed"),
    }
    match responded {
        Effect::Respond { status, message } => {
            assert_eq!(status, Status::Success);
            assert_eq!(message, "hi\n");
            let resp = to_response(status, message);
            assert_eq!(resp.status, "Ok");
            assert_eq!(resp.message, "hi\n");
        }
        _ => panic!("expected the outcome"),
    }
    assert!(matches!(p.phase, Phase::Done { .. }));
}

#[test]
fn c_compile_diagnostics_end_the_request() {
    let (mut p, eff) = Pipeline::start(
        Lang::C,
        "int main() { return 0 }".to_string(),
        String::new(),
        5,
    );
    let src_name = match eff {
        Effect::CreateFile { name, .. } => name,
        _ => panic!("expected the workspace file first"),
    };
    assert!(src_name.ends_with(".c"));
    let compile = p.on_file_written();
    match compile {
        Effect::Spawn { command, stdin } => {
            assert_eq!(command.program, "firejail");
            let exe = src_name.trim_end_matches(".c").to_string();
            let expected: Vec<String> = [
                "--quiet",
                "--shell=none",
                "--noroot",
                "--net=none",
                "--private",
                "gcc",
                "-o",
                &exe,
                &src_name,
            ]
            .iter()
            .map(|s| s.to_string())
            .collect();
            assert_eq!(command.args, expected);
            assert!(stdin.is_none());
        }
        _ => panic!("expected the compiler invocation"),
    }
    let diag = "error: expected ';' before '}' token".to_string();
    let (removed_src, removed_exe, responded) = three(p.on_compile_done(diag.clone()));
    match removed_src {
        Effect::RemoveFile { name } => assert_eq!(name, src_name),
        _ => panic!("expected the workspace file removed"),
    }
    match removed_exe {
        Effect::RemoveFile { name } => {
            assert_eq!(name, src_name.trim_end_matches(".c").to_string());
        }
        _ => panic!("a half-built binary must be discarded"),
    }
    match responded {
        Effect::Respond { status, message } => {
            assert_eq!(status, Status::CompilerTimeError);
            assert_eq!(message, diag);
            assert_eq!(to_response(status, message).status, "CompileTimeError");
        }
        _ => panic!("a diagnostic must end the request with no run"),
    }
    assert!(matches!(p.phase, Phase::Done { .. }));
}

#[test]
fn c_clean_compile_runs_binary_with_input() {
    let source = "#include <stdio.h>\nint main(){int a,b;scanf(\"%d %d\",&a,&b);printf(\"%d\\n\",a+b);return 0;}".to_string();
    let (mut p, eff) = Pipeline::start(Lang::C, source, "2 3\n".to_string(), 5);
    let src_name = match eff {
        Effect::CreateFile { name, .. } => name,
        _ => panic!("expected the workspace file first"),
    };
    let _compile = p.on_file_written();
    let (removed, next) = two(p.on_compile_done(String::new()));
    match removed {
        Effect::RemoveFile { name } => assert_eq!(name, src_name),
        _ => panic!("the source is removed once compiled"),
    }
    let exe = src_name.trim_end_matches(".c").to_string();
    match next {
        Effect::Spawn { command, stdin } => {
            let mut expected = sandbox_run_flags("5");
            expected.push(format!("./{}", exe));
            assert_eq!(command.args, expected);
            assert_eq!(stdin, Some("2 3\n".to_string()));
        }
        _ => panic!("a clean compile goes on to the run"),
    }
    let (removed2, responded) = two(p.on_run_done("5\n".to_string(), String::new(), false));
    match removed2 {
        Effect::RemoveFile { name } => assert_eq!(name, exe),
        _ => panic!("the binary is removed once run"),
    }
    match responded {
        Effect::Respond { status, message } => {
            assert_eq!(status, Status::Success);
            assert_eq!(message, "5\n");
        }
        _ => panic!("expected the outcome"),
    }
}

#[test]
fn stderr_means_runtime_error_with_that_text() {
    let (mut p, _eff) = Pipeline::start(
        Lang::Python3,
        "import sys; sys.stderr.write(\"boom\"); print(\"out\")".to_string(),
        String::new(),
        5,
    );
    let _run = p.on_file_written();
    let (_removed, responded) = two(p.on_run_done("out\n".to_string(), "boom".to_string(), false));
    match responded {
        Effect::Respond { status, message } => {
            assert_eq!(status, Status::RuntimeError);
            assert_eq!(message, "boom");
            assert_eq!(to_response(status, message).status, "RuntimeError");
        }
        _ => panic!("expected the outcome"),
    }
}

#[test]
fn cpu_time_kill_classifies_as_runtime_error() {
    let (mut p, _eff) = Pipeline::start(
        Lang::Python3,
        "while True: pass".to_string(),
        String::new(),
        1,
    );
    let run = p.on_file_written();
    match run {
        Effect::Spawn { command, .. } => {
            assert!(command.args.contains(&"--rlimit-cpu=1".to_string()));
        }
        _ => panic!("expected the interpreter run"),
    }
    let (_removed, responded) = two(p.on_run_done(
        String::new(),
        "Killed: CPU time limit exceeded\n".to_string(),
        true,
    ));
    match responded {
        Effect::Respond { status, .. } => assert_eq!(status, Status::RuntimeError),
        _ => panic!("expected the outcome"),
    }
}

#[test]
fn silent_kill_is_still_a_runtime_error() {
    let (mut p, _eff) = Pipeline::start(
        Lang::Python3,
        "while True: pass".to_string(),
        String::new(),
        1,
    );
    let _run = p.on_file_written();
    let (_removed, responded) = two(p.on_run_done("partial output".to_string(), String::new(), true));
    match responded {
        Effect::Respond { status, message } => {
            assert_eq!(status, Status::RuntimeError);
            assert_eq!(message, "");
        }
        _ => panic!("expected the outcome"),
    }
}

#[test]
fn workspace_names_are_fresh_and_well_formed() {
    let (p1, eff1) = Pipeline::start(Lang::Go, "package main".to_string(), String::new(), 2);
    let (p2, eff2) = Pipeline::start(Lang::Go, "package main".to_string(), String::new(), 2);
    let (n1, n2) = match (eff1, eff2) {
        (Effect::CreateFile { name: a, .. }, Effect::CreateFile { name: b, .. }) => (a, b),
        _ => panic!("expected the workspace files first"),
    };
    assert_ne!(n1, n2);
    for n in [&n1, &n2] {
        let token = n.trim_end_matches(".go");
        assert_eq!(token.len() + 3, n.len());
        assert!(is_token_text(token));
    }
    assert_eq!(p1.src_name, n1);
    assert_eq!(p2.src_name, n2);
}
