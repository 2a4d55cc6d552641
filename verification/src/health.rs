//! The health handler: the host's figures, read from what `vmstat` and the
//! memory query printed.

use vstd::prelude::*;
use crate::lines::{lines, lines_of};
use crate::parse::{i32_of, parse_i32, words, words_of};
use crate::protocol::{command, no_args, push_arg, reply, views};
use crate::protocol::{Command, CommandModel, Response};
use crate::text::str_eq;

verus! {

/// The figure that stands for one that was not reported.
pub const UNREAD: i32 = -1;

/// The host's figures. A figure that `vmstat` did not report is -1.
#[derive(Clone, Copy, PartialEq, Eq, Structural, Debug)]
pub struct SystemStats {
    pub memory_total: i32,
    pub memory_swapped: i32,
    pub memory_free: i32,
    pub memory_buffer: i32,
    pub memory_cache: i32,
    pub io_bytes_in: i32,
    pub io_bytes_out: i32,
    pub cpu_usage: i32,
}

/// Why the figures could not be read.
#[derive(Clone, Copy, PartialEq, Eq, Structural, Debug)]
pub enum HealthError {
    /// The total memory is not a number.
    MemoryTotal,
    /// What `vmstat` printed has no line of column names.
    MissingHeader,
    /// A column that is read has no value beneath its name.
    MissingValue,
    /// The value beneath the name of a column that is read is not a number.
    InvalidValue,
}

/// A column of `vmstat` that is read.
#[derive(Clone, Copy, PartialEq, Eq, Structural, Debug)]
pub enum Column {
    Swapped,
    Free,
    Buffer,
    Cache,
    BytesIn,
    BytesOut,
    Cpu,
}

/// The column that `vmstat` gives this name, where it is one that is read.
pub open spec fn column_of(name: Seq<char>) -> Option<Column> {
    if name == "swpd"@ {
        Some(Column::Swapped)
    } else if name == "free"@ {
        Some(Column::Free)
    } else if name == "buff"@ {
        Some(Column::Buffer)
    } else if name == "cache"@ {
        Some(Column::Cache)
    } else if name == "bi"@ {
        Some(Column::BytesIn)
    } else if name == "bo"@ {
        Some(Column::BytesOut)
    } else if name == "us"@ {
        Some(Column::Cpu)
    } else {
        None
    }
}

/// The figures with the one of `column` set to `value`.
pub open spec fn with_figure(stats: SystemStats, column: Column, value: i32) -> SystemStats {
    match column {
        Column::Swapped => SystemStats { memory_swapped: value, ..stats },
        Column::Free => SystemStats { memory_free: value, ..stats },
        Column::Buffer => SystemStats { memory_buffer: value, ..stats },
        Column::Cache => SystemStats { memory_cache: value, ..stats },
        Column::BytesIn => SystemStats { io_bytes_in: value, ..stats },
        Column::BytesOut => SystemStats { io_bytes_out: value, ..stats },
        Column::Cpu => SystemStats { cpu_usage: value, ..stats },
    }
}

/// The figure of `column`.
pub open spec fn figure(stats: SystemStats, column: Column) -> i32 {
    match column {
        Column::Swapped => stats.memory_swapped,
        Column::Free => stats.memory_free,
        Column::Buffer => stats.memory_buffer,
        Column::Cache => stats.memory_cache,
        Column::BytesIn => stats.io_bytes_in,
        Column::BytesOut => stats.io_bytes_out,
        Column::Cpu => stats.cpu_usage,
    }
}

/// The figures of a host with this much memory, before anything else is
/// known.
pub open spec fn unread(memory_total: i32) -> SystemStats {
    SystemStats {
        memory_total,
        memory_swapped: UNREAD,
        memory_free: UNREAD,
        memory_buffer: UNREAD,
        memory_cache: UNREAD,
        io_bytes_in: UNREAD,
        io_bytes_out: UNREAD,
        cpu_usage: UNREAD,
    }
}

/// The figures after the columns from `at` on are read, in their order: each
/// column that is read takes the number beneath its name, and the first one
/// without a number there ends the reading.
pub open spec fn read_columns(
    stats: SystemStats,
    names: Seq<Seq<char>>,
    values: Seq<Seq<char>>,
    at: int,
) -> Result<SystemStats, HealthError>
    decreases names.len() - at,
{
    if at < 0 || at >= names.len() {
        Ok(stats)
    } else {
        match column_of(names[at]) {
            None => read_columns(stats, names, values, at + 1),
            Some(column) => if at >= values.len() {
                Err(HealthError::MissingValue)
            } else {
                match i32_of(values[at]) {
                    None => Err(HealthError::InvalidValue),
                    Some(v) => read_columns(with_figure(stats, column, v), names, values, at + 1),
                }
            },
        }
    }
}

/// The words of line `i`; none where there is no such line.
pub open spec fn row(lines: Seq<Seq<char>>, i: int) -> Seq<Seq<char>> {
    if 0 <= i < lines.len() {
        words_of(lines[i])
    } else {
        Seq::empty()
    }
}

/// The host's figures: the total memory as it was printed, and for each
/// column that is read the number in the third line beneath the column's
/// name in the second.
pub open spec fn health_of(
    vmstat: Seq<char>,
    total_mem: Seq<char>,
) -> Result<SystemStats, HealthError> {
    match i32_of(total_mem) {
        None => Err(HealthError::MemoryTotal),
        Some(total) => if lines_of(vmstat).len() < 2 {
            Err(HealthError::MissingHeader)
        } else {
            read_columns(unread(total), row(lines_of(vmstat), 1), row(lines_of(vmstat), 2), 0)
        },
    }
}

/// The column that `vmstat` gives this name, where it is one that is read.
pub fn column_named(name: &str) -> (r: Option<Column>)
    ensures
        r == column_of(name@),
{
    if str_eq(name, "swpd") {
        Some(Column::Swapped)
    } else if str_eq(name, "free") {
        Some(Column::Free)
    } else if str_eq(name, "buff") {
        Some(Column::Buffer)
    } else if str_eq(name, "cache") {
        Some(Column::Cache)
    } else if str_eq(name, "bi") {
        Some(Column::BytesIn)
    } else if str_eq(name, "bo") {
        Some(Column::BytesOut)
    } else if str_eq(name, "us") {
        Some(Column::Cpu)
    } else {
        None
    }
}

impl SystemStats {
    /// The figures of a host with this much memory, before anything else is
    /// known.
    pub fn new(memory_total: i32) -> (r: SystemStats)
        ensures
            r == unread(memory_total),
    {
        SystemStats {
            memory_total,
            memory_swapped: UNREAD,
            memory_free: UNREAD,
            memory_buffer: UNREAD,
            memory_cache: UNREAD,
            io_bytes_in: UNREAD,
            io_bytes_out: UNREAD,
            cpu_usage: UNREAD,
        }
    }

    /// Sets the figure of `column` to `value`.
    pub fn set(&mut self, column: Column, value: i32)
        ensures
            *final(self) == with_figure(*old(self), column, value),
    {
        match column {
            Column::Swapped => self.memory_swapped = value,
            Column::Free => self.memory_free = value,
            Column::Buffer => self.memory_buffer = value,
            Column::Cache => self.memory_cache = value,
            Column::BytesIn => self.io_bytes_in = value,
            Column::BytesOut => self.io_bytes_out = value,
            Column::Cpu => self.cpu_usage = value,
        }
    }
}

/// The host's figures, from what `vmstat` and the query for the total memory
/// printed.
pub fn health(vmstat: &str, total_mem: &str) -> (r: Result<SystemStats, HealthError>)
    ensures
        r == health_of(vmstat@, total_mem@),
{
    let total = match parse_i32(total_mem) {
        Some(v) => v,
        None => {
            return Err(HealthError::MemoryTotal);
        },
    };
    let all = lines(vmstat);
    if all.len() < 2 {
        return Err(HealthError::MissingHeader);
    }
    let names = words(all[1].as_str());
    let values = if all.len() > 2 {
        words(all[2].as_str())
    } else {
        let none = no_args();
        none
    };
    let mut stats = SystemStats::new(total);
    let mut at: usize = 0;
    while at < names.len()
        invariant
            at <= names.len(),
            i32_of(total_mem@) == Some(total),
            lines_of(vmstat@).len() >= 2,
            views(names@) == row(lines_of(vmstat@), 1),
            views(values@) == row(lines_of(vmstat@), 2),
            read_columns(stats, views(names@), views(values@), at as int) == read_columns(
                unread(total),
                views(names@),
                views(values@),
                0,
            ),
        decreases names.len() - at,
    {
        assert(views(names@)[at as int] == names@[at as int]@);
        if let Some(col) = column_named(names[at].as_str()) {
            if at >= values.len() {
                return Err(HealthError::MissingValue);
            }
            assert(views(values@)[at as int] == values@[at as int]@);
            match parse_i32(values[at].as_str()) {
                None => {
                    return Err(HealthError::InvalidValue);
                },
                Some(v) => {
                    stats.set(col, v);
                },
            }
        }
        at += 1;
    }
    Ok(stats)
}

/// The command that prints the host's memory, traffic and load.
pub fn vmstat_command() -> (r: Command)
    ensures
        r@ == command("vmstat"@, Seq::empty(), None),
{
    Command::bare("vmstat")
}

/// The command that prints the host's total memory.
pub fn meminfo_command() -> (r: Command)
    ensures
        r@ == command("awk"@, seq!["/^MemTotal:/ {printf $2}"@, "/proc/meminfo"@], None),
{
    let mut args = no_args();
    push_arg(&mut args, "/^MemTotal:/ {printf $2}");
    push_arg(&mut args, "/proc/meminfo");
    assert(views(args@) =~= seq!["/^MemTotal:/ {printf $2}"@, "/proc/meminfo"@]);
    Command::new("awk", args)
}

/// The answer to a health request whose figures could not be read: status
/// 500, in place of a handler that gives up.
pub fn unhealthy(error: HealthError) -> (r: Response)
    ensures
        r@ == reply(
            500,
            match error {
                HealthError::MemoryTotal => "{\"error\": \"Cant read total memory\"}"@,
                HealthError::MissingHeader => "{\"error\": \"Cant read vmstat header\"}"@,
                HealthError::MissingValue => "{\"error\": \"Cant find vmstat value\"}"@,
                HealthError::InvalidValue => "{\"error\": \"Cant read vmstat value\"}"@,
            },
        ),
{
    match error {
        HealthError::MemoryTotal => Response::text(500, "{\"error\": \"Cant read total memory\"}"),
        HealthError::MissingHeader => Response::text(500, "{\"error\": \"Cant read vmstat header\"}"),
        HealthError::MissingValue => Response::text(500, "{\"error\": \"Cant find vmstat value\"}"),
        HealthError::InvalidValue => Response::text(500, "{\"error\": \"Cant read vmstat value\"}"),
    }
}

/// Reading columns leaves the total memory as it is, and leaves the figure
/// of a column as it is where none of the names from `at` on is that
/// column's.
pub proof fn unnamed_column_is_kept(
    stats: SystemStats,
    names: Seq<Seq<char>>,
    values: Seq<Seq<char>>,
    at: int,
    column: Column,
)
    requires
        0 <= at,
        forall|i: int| at <= i < names.len() ==> column_of(#[trigger] names[i]) != Some(column),
    ensures
        read_columns(stats, names, values, at) is Ok ==> {
            &&& figure(read_columns(stats, names, values, at)->Ok_0, column) == figure(stats, column)
            &&& read_columns(stats, names, values, at)->Ok_0.memory_total == stats.memory_total
        },
    decreases names.len() - at,
{
    if at < names.len() {
        match column_of(names[at]) {
            None => unnamed_column_is_kept(stats, names, values, at + 1, column),
            Some(other) => {
                if at < values.len() && i32_of(values[at]) is Some {
                    unnamed_column_is_kept(
                        with_figure(stats, other, i32_of(values[at])->0),
                        names,
                        values,
                        at + 1,
                        column,
                    );
                }
            },
        }
    }
}

/// Where the figures can be read, the total memory is the number that was
/// printed, and the figure of a column whose name is not in the second line
/// of what `vmstat` printed is -1.
pub proof fn unreported_figure_is_unread(vmstat: Seq<char>, total_mem: Seq<char>, column: Column)
    requires
        health_of(vmstat, total_mem) is Ok,
    ensures
        Some(health_of(vmstat, total_mem)->Ok_0.memory_total) == i32_of(total_mem),
        (forall|i: int|
            0 <= i < row(lines_of(vmstat), 1).len() ==> column_of(
                #[trigger] row(lines_of(vmstat), 1)[i],
            ) != Some(column)) ==> figure(health_of(vmstat, total_mem)->Ok_0, column) == UNREAD,
{
    let total = i32_of(total_mem)->0;
    let names = row(lines_of(vmstat), 1);
    let values = row(lines_of(vmstat), 2);
    if forall|i: int| 0 <= i < names.len() ==> column_of(#[trigger] names[i]) != Some(column) {
        unnamed_column_is_kept(unread(total), names, values, 0, column);
    } else {
        total_is_kept(unread(total), names, values, 0);
    }
}

proof fn total_is_kept(stats: SystemStats, names: Seq<Seq<char>>, values: Seq<Seq<char>>, at: int)
    requires
        0 <= at,
    ensures
        read_columns(stats, names, values, at) is Ok ==> read_columns(
            stats,
            names,
            values,
            at,
        )->Ok_0.memory_total == stats.memory_total,
    decreases names.len() - at,
{
    if at < names.len() {
        match column_of(names[at]) {
            None => total_is_kept(stats, names, values, at + 1),
            Some(other) => {
                if at < values.len() && i32_of(values[at]) is Some {
                    total_is_kept(
                        with_figure(stats, other, i32_of(values[at])->0),
                        names,
                        values,
                        at + 1,
                    );
                }
            },
        }
    }
}

} // verus!
