//! Info collection: six display lines in a fixed order — user marker, host
//! name, OS type, kernel release, CPU speed, memory usage. Each host query is
//! independent; one that fails degrades to a fixed fallback text, and no line
//! is ever omitted.

use vstd::prelude::*;
use crate::strutil::{spec_dec, u64_to_string};
use colored::Colorize;

verus! {

#[verifier::external_type_specification]
#[verifier::external_body]
pub struct ExSysInfoError(sys_info::Error);

/// Relies on whoami::username: the current user's login name, as the host
/// reports it. Nothing is promised of the value.
#[verifier::external_body]
fn query_username() -> (r: String) {
    whoami::username()
}

/// Relies on whoami::hostname: the host's name, as the host reports it.
/// Nothing is promised of the value.
#[verifier::external_body]
#[allow(deprecated)]
fn query_hostname() -> (r: String) {
    whoami::hostname()
}

/// Relies on colored::Colorize::green and ColoredString's Display impl: the
/// given text wrapped in the green style, when the environment has colors on.
/// Nothing is promised of the value, which depends on the environment.
#[verifier::external_body]
fn paint_green(s: &str) -> (r: String) {
    s.green().to_string()
}

/// Relies on colored::Colorize::yellow and ColoredString's Display impl: the
/// given text wrapped in the yellow style, when the environment has colors on.
/// Nothing is promised of the value, which depends on the environment.
#[verifier::external_body]
fn paint_yellow(s: &str) -> (r: String) {
    s.yellow().to_string()
}

/// Relies on sys_info::os_type: the operating system's name, such as
/// "Linux", or an error. Nothing is promised of the value.
#[verifier::external_body]
fn query_os_type() -> (r: Result<String, sys_info::Error>) {
    sys_info::os_type()
}

/// Relies on sys_info::os_release: the kernel release string, such as
/// "6.1.0-generic", or an error. Nothing is promised of the value.
#[verifier::external_body]
fn query_os_release() -> (r: Result<String, sys_info::Error>) {
    sys_info::os_release()
}

/// Relies on sys_info::cpu_speed: the CPU clock speed in MHz, or an error.
/// Nothing is promised of the value.
#[verifier::external_body]
fn query_cpu_speed() -> (r: Result<u64, sys_info::Error>) {
    sys_info::cpu_speed()
}

/// Relies on sys_info::mem_info: total and available physical memory in
/// kilobytes, picked out of the MemInfo record, or an error. Nothing is
/// promised of the values; the host may even report more available than
/// total.
#[verifier::external_body]
fn query_mem_info() -> (r: Result<(u64, u64), sys_info::Error>) {
    match sys_info::mem_info() {
        Ok(m) => Ok((m.total, m.avail)),
        Err(e) => Err(e),
    }
}

/// The OS line: the queried OS type, or the fallback text.
pub open spec fn spec_os_line(os: Option<Seq<char>>) -> Seq<char> {
    match os {
        Option::Some(t) => "OS: "@ + t,
        Option::None => "OS: Unknown"@,
    }
}

/// The kernel line: the queried release string, or the fallback text.
pub open spec fn spec_kernel_line(kernel: Option<Seq<char>>) -> Seq<char> {
    match kernel {
        Option::Some(t) => "Kernel: "@ + t,
        Option::None => "Kernel: Unknown"@,
    }
}

/// The CPU line: the queried speed in MHz, or the fallback text.
pub open spec fn spec_cpu_line(cpu: Option<u64>) -> Seq<char> {
    match cpu {
        Option::Some(mhz) => "CPU Speed: "@ + spec_dec(mhz as nat) + " MHz"@,
        Option::None => "CPU Speed: Unknown"@,
    }
}

/// The memory line for total and available kilobytes: used and total
/// megabytes by integer division. A failed query degrades to the fallback
/// text, and so does a host that reports more available than total memory,
/// which would otherwise put the used amount below zero.
pub open spec fn spec_memory_line(mem: Option<(u64, u64)>) -> Seq<char> {
    match mem {
        Option::Some(m) => if m.1 <= m.0 {
            "Memory: "@ + spec_dec((((m.0 - m.1) / 1024) as nat)) + " MB / "@ + spec_dec(
                ((m.0 / 1024) as nat),
            ) + " MB"@
        } else {
            "Memory: Unknown"@
        },
        Option::None => "Memory: Unknown"@,
    }
}

/// The six info lines, in their fixed order: user marker, host, OS, kernel,
/// CPU speed, memory.
pub open spec fn spec_info_lines(
    user: Seq<char>,
    host: Seq<char>,
    os: Option<Seq<char>>,
    kernel: Option<Seq<char>>,
    cpu: Option<u64>,
    mem: Option<(u64, u64)>,
) -> Seq<Seq<char>> {
    seq![
        user + "@"@,
        host,
        spec_os_line(os),
        spec_kernel_line(kernel),
        spec_cpu_line(cpu),
        spec_memory_line(mem),
    ]
}

/// Build the six info lines from the outcomes of the host queries, `None`
/// standing for a query that failed. Exactly six lines come back, in the
/// fixed order, whatever failed.
pub fn format_info_lines(
    user: String,
    host: String,
    os: Option<String>,
    kernel: Option<String>,
    cpu: Option<u64>,
    mem: Option<(u64, u64)>,
) -> (r: Vec<String>)
    ensures
        r.deep_view() == spec_info_lines(
            user@,
            host@,
            os.deep_view(),
            kernel.deep_view(),
            cpu,
            mem,
        ),
        r@.len() == 6,
{
    let ghost guser = user@;
    let ghost ghost_host = host@;
    let ghost gos = os.deep_view();
    let ghost gkernel = kernel.deep_view();
    let mut r: Vec<String> = Vec::new();
    r.push(user.concat("@"));
    r.push(host);
    let os_line = match os {
        Option::Some(t) => String::from_str("OS: ").concat(t.as_str()),
        Option::None => String::from_str("OS: Unknown"),
    };
    r.push(os_line);
    let kernel_line = match kernel {
        Option::Some(t) => String::from_str("Kernel: ").concat(t.as_str()),
        Option::None => String::from_str("Kernel: Unknown"),
    };
    r.push(kernel_line);
    let cpu_line = match cpu {
        Option::Some(mhz) => {
            let mut l = String::from_str("CPU Speed: ");
            l.append(u64_to_string(mhz).as_str());
            l.append(" MHz");
            l
        },
        Option::None => String::from_str("CPU Speed: Unknown"),
    };
    r.push(cpu_line);
    let mem_line = match mem {
        Option::Some((total, avail)) => {
            if avail <= total {
                let used_mb = (total - avail) / 1024;
                let total_mb = total / 1024;
                let mut l = String::from_str("Memory: ");
                l.append(u64_to_string(used_mb).as_str());
                l.append(" MB / ");
                l.append(u64_to_string(total_mb).as_str());
                l.append(" MB");
                l
            } else {
                String::from_str("Memory: Unknown")
            }
        },
        Option::None => String::from_str("Memory: Unknown"),
    };
    r.push(mem_line);
    proof {
        assert(r.deep_view() =~= spec_info_lines(guser, ghost_host, gos, gkernel, cpu, mem));
    }
    r
}

/// Gather the six info lines from the host: each query runs independently,
/// and one that fails only degrades its own line to the fallback text.
pub fn get_system_info() -> (r: Vec<String>)
    ensures
        r@.len() == 6,
        exists|
            user: Seq<char>,
            host: Seq<char>,
            os: Option<Seq<char>>,
            kernel: Option<Seq<char>>,
            cpu: Option<u64>,
            mem: Option<(u64, u64)>,
        | r.deep_view() == spec_info_lines(user, host, os, kernel, cpu, mem),
{
    let user = paint_green(query_username().as_str());
    let host = paint_yellow(query_hostname().as_str());
    let os = match query_os_type() {
        Ok(t) => Option::Some(t),
        Err(_) => Option::None,
    };
    let kernel = match query_os_release() {
        Ok(t) => Option::Some(t),
        Err(_) => Option::None,
    };
    let cpu = match query_cpu_speed() {
        Ok(mhz) => Option::Some(mhz),
        Err(_) => Option::None,
    };
    let mem = match query_mem_info() {
        Ok(tm) => Option::Some(tm),
        Err(_) => Option::None,
    };
    let ghost guser = user@;
    let ghost ghost_host = host@;
    let ghost gos = os.deep_view();
    let ghost gkernel = kernel.deep_view();
    let r = format_info_lines(user, host, os, kernel, cpu, mem);
    proof {
        assert(r.deep_view() == spec_info_lines(guser, ghost_host, gos, gkernel, cpu, mem));
    }
    r
}

} // verus!
