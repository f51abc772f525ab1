//! Construction of the sandboxed subprocess invocations.
//!
//! Every compile and every run goes through the sandbox binary with a fixed
//! security policy; these functions build the exact argument lists.

use vstd::prelude::*;

use crate::lang::Lang;

verus! {

/// One subprocess invocation: the program to start and its arguments, in
/// order. The surrounding program performs the spawn with the scratch
/// directory as the working directory.
pub struct CommandSpec {
    pub program: String,
    pub args: Vec<String>,
}

/// The character of a single decimal digit.
pub open spec fn digit_char(d: u8) -> char
    recommends
        d < 10,
{
    if d == 0 {
        '0'
    } else if d == 1 {
        '1'
    } else if d == 2 {
        '2'
    } else if d == 3 {
        '3'
    } else if d == 4 {
        '4'
    } else if d == 5 {
        '5'
    } else if d == 6 {
        '6'
    } else if d == 7 {
        '7'
    } else if d == 8 {
        '8'
    } else {
        '9'
    }
}

/// The decimal text of a byte-sized number, without leading zeros.
pub open spec fn spec_decimal(n: u8) -> Seq<char> {
    if n >= 100 {
        seq![digit_char(n / 100), digit_char((n / 10) % 10), digit_char(n % 10)]
    } else if n >= 10 {
        seq![digit_char(n / 10), digit_char(n % 10)]
    } else {
        seq![digit_char(n)]
    }
}

fn digit_str(d: u8) -> (r: &'static str)
    requires
        d < 10,
    ensures
        r@ == seq![digit_char(d)],
{
    if d == 0 {
        proof {
            reveal_strlit("0");
            assert("0"@ =~= seq![digit_char(0u8)]);
        }
        "0"
    } else if d == 1 {
        proof {
            reveal_strlit("1");
            assert("1"@ =~= seq![digit_char(1u8)]);
        }
        "1"
    } else if d == 2 {
        proof {
            reveal_strlit("2");
            assert("2"@ =~= seq![digit_char(2u8)]);
        }
        "2"
    } else if d == 3 {
        proof {
            reveal_strlit("3");
            assert("3"@ =~= seq![digit_char(3u8)]);
        }
        "3"
    } else if d == 4 {
        proof {
            reveal_strlit("4");
            assert("4"@ =~= seq![digit_char(4u8)]);
        }
        "4"
    } else if d == 5 {
        proof {
            reveal_strlit("5");
            assert("5"@ =~= seq![digit_char(5u8)]);
        }
        "5"
    } else if d == 6 {
        proof {
            reveal_strlit("6");
            assert("6"@ =~= seq![digit_char(6u8)]);
        }
        "6"
    } else if d == 7 {
        proof {
            reveal_strlit("7");
            assert("7"@ =~= seq![digit_char(7u8)]);
        }
        "7"
    } else if d == 8 {
        proof {
            reveal_strlit("8");
            assert("8"@ =~= seq![digit_char(8u8)]);
        }
        "8"
    } else {
        proof {
            reveal_strlit("9");
            assert("9"@ =~= seq![digit_char(9u8)]);
        }
        "9"
    }
}

/// The decimal text of `n`.
pub fn decimal(n: u8) -> (r: String)
    ensures
        r@ == spec_decimal(n),
{
    let mut s = String::new();
    if n >= 100 {
        s.append(digit_str(n / 100));
        s.append(digit_str((n / 10) % 10));
        s.append(digit_str(n % 10));
    } else if n >= 10 {
        s.append(digit_str(n / 10));
        s.append(digit_str(n % 10));
    } else {
        s.append(digit_str(n));
    }
    proof {
        assert(s@ =~= spec_decimal(n));
    }
    s
}

/// The sandbox flags shared by every invocation: no interactive shell, no
/// root capabilities, no network.
pub open spec fn common_flags() -> Seq<Seq<char>> {
    seq!["--quiet"@, "--shell=none"@, "--noroot"@, "--net=none"@]
}

/// The flags of a compile invocation: the common set plus a private
/// filesystem view.
pub open spec fn compile_flags() -> Seq<Seq<char>> {
    common_flags().push("--private"@)
}

/// The toolchain command of a compiled language: the compiler, the output
/// binary where one is named explicitly, and the source file.
pub open spec fn compiler_invocation(l: Lang, src: Seq<char>, exe: Seq<char>) -> Seq<Seq<char>>
    recommends
        !l.spec_interpreted(),
{
    match l {
        Lang::C => seq!["gcc"@, "-o"@, exe, src],
        Lang::Cpp => seq!["g++"@, "-o"@, exe, src],
        Lang::Go => seq!["go"@, "build"@, src],
        Lang::Rust => seq!["rustc"@, src],
        Lang::Python2 => Seq::<Seq<char>>::empty(),
        Lang::Python3 => Seq::<Seq<char>>::empty(),
    }
}

/// The filesystem paths a running program may not see.
pub open spec fn blacklist_flags() -> Seq<Seq<char>> {
    seq!["--blacklist=/home/"@, "--blacklist=/etc/"@, "--blacklist=/boot/"@, "--blacklist=/var/"@]
}

/// The CPU-time flag for a limit of `t` seconds.
pub open spec fn rlimit_flag(t: u8) -> Seq<char> {
    "--rlimit-cpu="@ + spec_decimal(t)
}

/// The allow-list of system calls a running program may make; anything
/// outside it has the sandbox kill the process.
pub open spec fn seccomp_flag() -> Seq<char> {
    "--seccomp.keep=getcwd,getpid,rt_sigreturn,brk,close,sched_getaffinity,dup,mmap,getuid,rt_sigaction,set_robust_list,set_tid_address,rt_sigprocmask,pread64,sysinfo,gettid,getdents64,lseek,geteuid,sigaltstack,getrandom,clone,futex,arch_prctl,fcntl,poll,readlink,access,mprotect,munmap,write,prlimit64,newfstatat,getegid,exit_group,readlinkat,ioctl,openat,read,getgid"@
}

/// All sandbox flags of a run invocation: the common set, the path
/// blacklist, the CPU-time cap, and the system-call allow-list. Memory is
/// not capped: a known, documented gap.
pub open spec fn run_flags(t: u8) -> Seq<Seq<char>> {
    common_flags() + blacklist_flags() + seq![rlimit_flag(t), seccomp_flag()]
}

/// The sandboxed compiler invocation for a compiled language: the sandbox
/// binary with no network, no root, a private filesystem view, then the
/// toolchain command on the workspace source file.
pub fn compile_command(lang: &Lang, src_name: &String, exe_name: &String) -> (r: CommandSpec)
    requires
        !lang.spec_interpreted(),
    ensures
        r.program@ == "firejail"@,
        r.args.deep_view() == compile_flags() + compiler_invocation(*lang, src_name@, exe_name@),
{
    let mut args: Vec<String> = Vec::new();
    args.push(String::from_str("--quiet"));
    args.push(String::from_str("--shell=none"));
    args.push(String::from_str("--noroot"));
    args.push(String::from_str("--net=none"));
    args.push(String::from_str("--private"));
    match lang {
        Lang::C => {
            args.push(String::from_str("gcc"));
            args.push(String::from_str("-o"));
            args.push(exe_name.clone());
            args.push(src_name.clone());
        },
        Lang::Cpp => {
            args.push(String::from_str("g++"));
            args.push(String::from_str("-o"));
            args.push(exe_name.clone());
            args.push(src_name.clone());
        },
        Lang::Go => {
            args.push(String::from_str("go"));
            args.push(String::from_str("build"));
            args.push(src_name.clone());
        },
        Lang::Rust => {
            args.push(String::from_str("rustc"));
            args.push(src_name.clone());
        },
        Lang::Python2 => {
            proof {
                assert(false);
            }
        },
        Lang::Python3 => {
            proof {
                assert(false);
            }
        },
    }
    proof {
        assert(args.deep_view() =~~= compile_flags() + compiler_invocation(
            *lang,
            src_name@,
            exe_name@,
        ));
    }
    CommandSpec { program: String::from_str("firejail"), args }
}

/// The sandboxed run invocation: the sandbox binary with the fixed security
/// policy and the CPU-time cap, then the program and its arguments.
pub fn run_command(exe: &str, exe_args: &Vec<String>, time_limit: u8) -> (r: CommandSpec)
    ensures
        r.program@ == "firejail"@,
        r.args.deep_view() == run_flags(time_limit) + seq![exe@] + exe_args.deep_view(),
{
    let mut args: Vec<String> = Vec::new();
    args.push(String::from_str("--quiet"));
    args.push(String::from_str("--shell=none"));
    args.push(String::from_str("--noroot"));
    args.push(String::from_str("--net=none"));
    args.push(String::from_str("--blacklist=/home/"));
    args.push(String::from_str("--blacklist=/etc/"));
    args.push(String::from_str("--blacklist=/boot/"));
    args.push(String::from_str("--blacklist=/var/"));
    let mut rlimit = String::from_str("--rlimit-cpu=");
    let digits = decimal(time_limit);
    rlimit.append(digits.as_str());
    args.push(rlimit);
    args.push(String::from_str(
        "--seccomp.keep=getcwd,getpid,rt_sigreturn,brk,close,sched_getaffinity,dup,mmap,getuid,rt_sigaction,set_robust_list,set_tid_address,rt_sigprocmask,pread64,sysinfo,gettid,getdents64,lseek,geteuid,sigaltstack,getrandom,clone,futex,arch_prctl,fcntl,poll,readlink,access,mprotect,munmap,write,prlimit64,newfstatat,getegid,exit_group,readlinkat,ioctl,openat,read,getgid",
    ));
    args.push(exe.to_owned());
    let ghost prefix = args@;
    let mut i: usize = 0;
    while i < exe_args.len()
        invariant
            i <= exe_args.len(),
            args@.len() == prefix.len() + i,
            args@.subrange(0, prefix.len() as int) =~= prefix,
            forall|k: int| 0 <= k < i ==> args@[prefix.len() + k] == exe_args@[k],
        decreases exe_args.len() - i,
    {
        args.push(exe_args[i].clone());
        i += 1;
    }
    proof {
        let target = run_flags(time_limit) + seq![exe@] + exe_args.deep_view();
        assert(prefix.len() == 11);
        assert(target.len() == 11 + exe_args@.len());
        assert(args.deep_view().len() == target.len());
        assert forall|j: int| 0 <= j < target.len() implies args.deep_view()[j] == target[j] by {
            assert(args.deep_view()[j] == args@[j]@);
            if j < 11 {
                assert(args@[j] == prefix[j]);
            } else {
                assert(args@[j] == exe_args@[j - 11]);
                assert(target[j] == exe_args.deep_view()[j - 11]);
            }
        }
        assert(args.deep_view() =~= target);
    }
    CommandSpec { program: String::from_str("firejail"), args }
}

} // verus!
