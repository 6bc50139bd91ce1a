//! The report lines for the host's identity, CPU, memory and disks.
use vstd::prelude::*;
use crate::probe::{one_decimal, tenths_text};
use crate::text::{chars_of, concat, string_of};

verus! {

/// A percentage in tenths, or `NaN` where it could not be computed.
pub open spec fn percent_text(p: Option<i64>) -> Seq<char> {
    match p {
        Some(v) => tenths_text(v as int),
        None => "NaN"@,
    }
}

fn percent(p: Option<i64>) -> (r: Vec<char>)
    ensures
        r@ == percent_text(p),
{
    match p {
        Some(v) => one_decimal(v),
        None => chars_of("NaN"),
    }
}

fn append_str(a: Vec<char>, s: &String) -> (r: Vec<char>)
    ensures
        r@ == a@ + s@,
{
    concat(a, s.as_str())
}

pub open spec fn const_text(user: Seq<char>, pc: Seq<char>, os: Seq<char>) -> Seq<char> {
    "User: "@ + user + "\nPC: "@ + pc + "\nOS: "@ + os + "\n"@
}

/// The lines naming the user, the machine and the operating system.
pub fn get_const_info(user: &String, pc: &String, os: &String) -> (r: String)
    ensures
        r@ == const_text(user@, pc@, os@),
{
    let t = chars_of("User: ");
    let t = append_str(t, user);
    let t = concat(t, "\nPC: ");
    let t = append_str(t, pc);
    let t = concat(t, "\nOS: ");
    let t = append_str(t, os);
    string_of(&concat(t, "\n"))
}

pub open spec fn cpu_text(brand: Seq<char>, usage: Option<i64>) -> Seq<char> {
    "=== CPU Information ===\nName: "@ + brand + "\nUsage: "@ + percent_text(usage) + " %\n"@
}

/// The CPU lines: its brand and its usage, in tenths of a percent.
pub fn get_cpu_info(brand: &String, usage_tenths: Option<i64>) -> (r: String)
    ensures
        r@ == cpu_text(brand@, usage_tenths),
{
    let t = chars_of("=== CPU Information ===\nName: ");
    let t = append_str(t, brand);
    let t = concat(t, "\nUsage: ");
    let mut t = t;
    let mut p = percent(usage_tenths);
    t.append(&mut p);
    string_of(&concat(t, " %\n"))
}

/// One mounted disk: where it is mounted, and the share of it in use, in
/// tenths of a percent.
pub struct DiskUsage {
    pub mount_point: String,
    pub used_tenths: Option<i64>,
}

pub open spec fn disk_line(d: DiskUsage) -> Seq<char> {
    d.mount_point@ + " usage: "@ + percent_text(d.used_tenths) + " %\n"@
}

pub open spec fn disk_lines(ds: Seq<DiskUsage>) -> Seq<char>
    decreases ds.len(),
{
    if ds.len() == 0 {
        Seq::empty()
    } else {
        disk_lines(ds.drop_last()) + disk_line(ds.last())
    }
}

pub open spec fn disk_text(ram: Option<i64>, ds: Seq<DiskUsage>) -> Seq<char> {
    "RAM usage: "@ + percent_text(ram) + " %\n"@ + disk_lines(ds)
}

/// The memory line, then one line per disk, in the order given.
pub fn get_disk_info(ram_tenths: Option<i64>, disks: &Vec<DiskUsage>) -> (r: String)
    ensures
        r@ == disk_text(ram_tenths, disks@),
{
    let mut t = chars_of("RAM usage: ");
    let mut p = percent(ram_tenths);
    t.append(&mut p);
    let mut t = concat(t, " %\n");
    let ghost head = t@;
    let mut i: usize = 0;
    while i < disks.len()
        invariant
            i <= disks.len(),
            head == "RAM usage: "@ + percent_text(ram_tenths) + " %\n"@,
            t@ == head + disk_lines(disks@.subrange(0, i as int)),
        decreases disks.len() - i,
    {
        let d = &disks[i];
        assert(disks@.subrange(0, i + 1).drop_last() =~= disks@.subrange(0, i as int));
        let u = append_str(Vec::new(), &d.mount_point);
        let u = concat(u, " usage: ");
        let mut u = u;
        let mut p = percent(d.used_tenths);
        u.append(&mut p);
        let mut u = concat(u, " %\n");
        assert(u@ == disk_line(*d));
        t.append(&mut u);
        assert(t@ =~= head + disk_lines(disks@.subrange(0, i + 1)));
        i += 1;
    }
    assert(disks@.subrange(0, disks.len() as int) =~= disks@);
    assert(t@ =~= disk_text(ram_tenths, disks@));
    string_of(&t)
}

} // verus!
