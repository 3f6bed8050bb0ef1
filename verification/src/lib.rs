//! Control of hardware PWM channels through the Linux sysfs interface.
//!
//! A PWM controller chip appears in the kernel's filesystem as a directory
//! `pwmchipC`; each of its output lines, once exported, appears as a
//! subdirectory `pwmN` holding small text attribute files.  This crate
//! verifies the whole protocol that drives those files: which paths are
//! touched, what text is written, how attribute text is parsed back, and the
//! scoped-acquisition discipline that releases a line on every exit path.
//!
//! The filesystem itself is reached through caller-supplied primitives (an
//! existence probe, a metadata check, a whole-file read, a whole-file
//! write), so the logic here is proved for every behaviour of the underlying
//! kernel interface.  See the `sysfs` module for the shape those primitives
//! take.

use vstd::prelude::*;

mod error;
pub mod paths;
pub mod sysfs;
pub mod text;

pub use error::Error;

use vstd::pervasive::unreached;
use vstd::string::StringExecFns;

use crate::paths::chip_dir;
use crate::paths::chip_dir_path;
use crate::paths::chip_file;
use crate::paths::chip_file_path;
use crate::paths::line_dir;
use crate::paths::line_dir_path;
use crate::paths::line_file;
use crate::paths::line_file_path;
use crate::sysfs::probe_always;
use crate::sysfs::probe_callable;
use crate::sysfs::probe_out;
use crate::sysfs::read_callable;
use crate::sysfs::read_out;
use crate::sysfs::stat_callable;
use crate::sysfs::stat_out;
use crate::sysfs::write_callable;
use crate::sysfs::write_out;
use crate::text::dec_str;
use crate::text::spec_parse_u32;
use crate::text::trimmed;
use crate::text::u32_string;

verus! {

/// A PWM controller chip, identified by its kernel-assigned index.
#[derive(Debug)]
pub struct PwmChip {
    pub number: u32,
}

/// One PWM output line: a controller chip together with a channel index.
///
/// The value itself owns no kernel resource; the exported state lives in the
/// kernel and is created and released explicitly.
#[derive(Debug)]
pub struct Pwm {
    pub chip: PwmChip,
    pub number: u32,
}

/// The polarity of the PWM signal: whether "active" is the high or the low
/// electrical level.
#[derive(Clone, Copy, Debug, PartialEq, Eq, Structural)]
pub enum Polarity {
    Normal,
    Inverse,
}

/// The literal text the kernel uses for a polarity.
pub open spec fn polarity_text(p: Polarity) -> Seq<char> {
    match p {
        Polarity::Normal => "normal"@,
        Polarity::Inverse => "inversed"@,
    }
}

/// How a numeric attribute text relates to its parsed result: the trimmed
/// text read as decimal on success, the raw text carried in the error
/// otherwise.
pub open spec fn file_parse_rel(t: Seq<char>, r: Result<u32, Error>) -> bool {
    match r {
        Ok(v) => spec_parse_u32(t) == Some(v),
        Err(e) => spec_parse_u32(t) is None && (e matches Error::Unexpected(m) && m@ == t),
    }
}

/// How an enable attribute text relates to its reading: `0` and `1` are the
/// two states; any other number is a reported kernel-contract violation
/// (`Ok(None)`); anything that is not a number does not parse.
pub open spec fn enable_parse_rel(t: Seq<char>, r: Result<Option<bool>, Error>) -> bool {
    match r {
        Ok(state) => match state {
            Some(b) => spec_parse_u32(t) == Some(
                if b {
                    1u32
                } else {
                    0u32
                },
            ),
            None => spec_parse_u32(t) matches Some(v) && v >= 2,
        },
        Err(e) => spec_parse_u32(t) is None && (e matches Error::Unexpected(m) && m@ == t),
    }
}

/// How a polarity attribute text relates to its parsed result.
pub open spec fn polarity_parse_rel(t: Seq<char>, r: Result<Polarity, Error>) -> bool {
    match r {
        Ok(p) => trimmed(t) == polarity_text(p),
        Err(e) => trimmed(t) != "normal"@ && trimmed(t) != "inversed"@ && (e
            matches Error::Unexpected(m) && m@ == t),
    }
}

/// The numbers among the whitespace-separated tokens of a capture attribute
/// text.
pub open spec fn capture_values(t: Seq<char>) -> Seq<u32> {
    text::dec_tokens_from(t, 0)
}

/// How a capture attribute text relates to the measured pair: exactly two
/// numeric tokens are expected.
pub open spec fn capture_parse_rel(t: Seq<char>, r: Result<(u32, u32), Error>) -> bool {
    let vals = capture_values(t);
    match r {
        Ok(pair) => vals.len() == 2 && pair.0 == vals[0] && pair.1 == vals[1],
        Err(e) => vals.len() != 2 && (e matches Error::Unexpected(m) && m@ == t),
    }
}

/// Parse the text of a numeric attribute file.
pub fn pwm_file_parse(s: &str) -> (r: Result<u32, Error>)
    ensures
        file_parse_rel(s@, r),
{
    match text::parse_u32(s) {
        Some(v) => Ok(v),
        None => Err(Error::Unexpected(String::from_str(s))),
    }
}

/// Parse the text of the enable attribute file.
pub fn pwm_enable_parse(s: &str) -> (r: Result<Option<bool>, Error>)
    ensures
        enable_parse_rel(s@, r),
{
    match text::parse_u32(s) {
        Some(v) => {
            if v == 0 {
                Ok(Some(false))
            } else if v == 1 {
                Ok(Some(true))
            } else {
                Ok(None)
            }
        },
        None => Err(Error::Unexpected(String::from_str(s))),
    }
}

/// Parse the text of the polarity attribute file.
pub fn pwm_polarity_parse(s: &str) -> (r: Result<Polarity, Error>)
    ensures
        polarity_parse_rel(s@, r),
{
    let v = text::chars_of(s);
    let (lo, hi) = text::trim_bounds(&v);
    proof {
        text::lemma_skip_spaces_bounds(v@, 0);
        text::lemma_rskip_spaces_bounds(v@, v@.len() as int);
        reveal_strlit("normal");
        reveal_strlit("inversed");
    }
    if lo <= hi {
        proof {
            assert(trimmed(s@) == v@.subrange(lo as int, hi as int));
        }
        if text::range_eq_str(&v, lo, hi, "normal") {
            Ok(Polarity::Normal)
        } else if text::range_eq_str(&v, lo, hi, "inversed") {
            Ok(Polarity::Inverse)
        } else {
            Err(Error::Unexpected(String::from_str(s)))
        }
    } else {
        proof {
            assert(trimmed(s@) =~= Seq::<char>::empty());
        }
        Err(Error::Unexpected(String::from_str(s)))
    }
}

/// Parse the text of the capture attribute file: every whitespace-separated
/// token that reads as a number, in order.
pub fn pwm_capture_parse(s: &str) -> (r: Vec<u32>)
    ensures
        r@ == capture_values(s@),
{
    let v = text::chars_of(s);
    text::scan_dec_tokens(&v)
}

/// Interpret a capture attribute text as the measured (period, duty) pair.
pub fn pwm_capture_pair(s: &str) -> (r: Result<(u32, u32), Error>)
    ensures
        capture_parse_rel(s@, r),
{
    let vals = pwm_capture_parse(s);
    if vals.len() == 2 {
        Ok((vals[0], vals[1]))
    } else {
        Err(Error::Unexpected(String::from_str(s)))
    }
}

/// How the result of an operation that writes `text` to the file at `path`
/// relates to what the write primitive reported.
pub open spec fn write_result_rel<W: FnOnce(String, String) -> Result<(), String>>(
    write: W,
    path: Seq<char>,
    text: Seq<char>,
    r: Result<(), Error>,
) -> bool {
    match r {
        Ok(()) => write_out(write, path, text, Ok(())),
        Err(e) => e matches Error::Io(m) && write_out(write, path, text, Err(m)),
    }
}

/// How the result of an operation that reads a numeric attribute relates to
/// what the read primitive reported.
pub open spec fn read_number_rel(out: Result<String, String>, r: Result<u32, Error>) -> bool {
    match out {
        Ok(s) => file_parse_rel(s@, r),
        Err(m) => r matches Err(Error::Io(mm)) && mm@ == m@,
    }
}

/// What `export` does, for a given chip and channel: nothing if the line's
/// directory is already present; otherwise one write of the channel index to
/// the chip's export control file.
pub open spec fn export_rel<
    P: FnOnce(String) -> bool,
    W: FnOnce(String, String) -> Result<(), String>,
>(chip: u32, number: u32, probe: P, write: W, r: Result<(), Error>) -> bool {
    exists|present: bool|
        #[trigger] probe_out(probe, line_dir(chip as nat, number as nat), present) && (if present {
            r == Ok::<(), Error>(())
        } else {
            write_result_rel(write, chip_file(chip as nat, "export"@), dec_str(number as nat), r)
        })
}

/// What `unexport` does: nothing if the line's directory is absent;
/// otherwise one write of the channel index to the chip's unexport control
/// file.
pub open spec fn unexport_rel<
    P: FnOnce(String) -> bool,
    W: FnOnce(String, String) -> Result<(), String>,
>(chip: u32, number: u32, probe: P, write: W, r: Result<(), Error>) -> bool {
    exists|present: bool|
        #[trigger] probe_out(probe, line_dir(chip as nat, number as nat), present) && (if present {
            write_result_rel(write, chip_file(chip as nat, "unexport"@), dec_str(number as nat), r)
        } else {
            r == Ok::<(), Error>(())
        })
}

impl PwmChip {
    /// Probe for the controller chip's directory and construct a handle for
    /// it; a chip that the kernel does not expose is reported as the probe's
    /// failure.
    pub fn new<S: FnOnce(String) -> Result<(), String>>(number: u32, stat: S) -> (r: Result<
        PwmChip,
        Error,
    >)
        requires
            stat_callable(stat),
        ensures
            exists|out: Result<(), String>|
                #[trigger] stat_out(stat, chip_dir(number as nat), out) && (match out {
                    Ok(()) => r == Ok::<PwmChip, Error>((PwmChip { number })),
                    Err(m) => r == Err::<PwmChip, Error>(Error::Io(m)),
                }),
    {
        let path = chip_dir_path(number);
        let out = stat(path);
        proof {
            assert(stat_out(stat, chip_dir(number as nat), out));
        }
        match out {
            Ok(()) => Ok(PwmChip { number }),
            Err(m) => Err(Error::Io(m)),
        }
    }

    /// Read the number of channels this chip drives from its `npwm`
    /// attribute.
    pub fn count<R: FnOnce(String) -> Result<String, String>>(&self, read: R) -> (r: Result<
        u32,
        Error,
    >)
        requires
            read_callable(read),
        ensures
            exists|out: Result<String, String>|
                #[trigger] read_out(read, chip_file(self.number as nat, "npwm"@), out)
                    && read_number_rel(out, r),
    {
        let path = chip_file_path(self.number, "npwm");
        let out = read(path);
        proof {
            assert(read_out(read, chip_file(self.number as nat, "npwm"@), out));
        }
        match out {
            Ok(s) => pwm_file_parse(s.as_str()),
            Err(m) => Err(Error::Io(m)),
        }
    }

    /// The write that exporting channel `number` requires, given whether the
    /// line's directory is already present: none if it is (exporting is
    /// idempotent), otherwise the channel index into the export control
    /// file.
    pub fn export_action(&self, number: u32, present: bool) -> (r: Option<(String, String)>)
        ensures
            match r {
                None => present,
                Some(pv) => !present && pv.0@ == chip_file(self.number as nat, "export"@) && pv.1@
                    == dec_str(number as nat),
            },
    {
        if present {
            None
        } else {
            Some((chip_file_path(self.number, "export"), u32_string(number)))
        }
    }

    /// The write that unexporting channel `number` requires, given whether
    /// the line's directory is present: none if it is not (unexporting is
    /// idempotent), otherwise the channel index into the unexport control
    /// file.
    pub fn unexport_action(&self, number: u32, present: bool) -> (r: Option<(String, String)>)
        ensures
            match r {
                None => !present,
                Some(pv) => present && pv.0@ == chip_file(self.number as nat, "unexport"@) && pv.1@
                    == dec_str(number as nat),
            },
    {
        if present {
            Some((chip_file_path(self.number, "unexport"), u32_string(number)))
        } else {
            None
        }
    }

    /// Claim channel `number`: ask the kernel to create its per-line
    /// directory, unless it exists already.
    pub fn export<P: FnOnce(String) -> bool, W: FnOnce(String, String) -> Result<(), String>>(
        &self,
        number: u32,
        probe: P,
        write: W,
    ) -> (r: Result<(), Error>)
        requires
            probe_callable(probe),
            write_callable(write),
        ensures
            export_rel(self.number, number, probe, write, r),
            probe_always(probe, line_dir(self.number as nat, number as nat), true) ==> r == Ok::<
                (),
                Error,
            >(()),
    {
        let line = line_dir_path(self.number, number);
        let present = probe(line);
        proof {
            assert(probe_out(probe, line_dir(self.number as nat, number as nat), present));
        }
        let r = match self.export_action(number, present) {
            None => Ok(()),
            Some(pv) => {
                let (p, t) = pv;
                let out = write(p, t);
                proof {
                    assert(write_out(
                        write,
                        chip_file(self.number as nat, "export"@),
                        dec_str(number as nat),
                        out,
                    ));
                }
                match out {
                    Ok(u) => {
                        proof {
                            assert(out == Ok::<(), String>(u));
                        }
                        Ok(())
                    },
                    Err(m) => {
                        proof {
                            assert(out == Err::<(), String>(m));
                        }
                        Err(Error::Io(m))
                    },
                }
            },
        };
        proof {
            assert(export_rel(self.number, number, probe, write, r));
        }
        r
    }

    /// Release channel `number`: ask the kernel to remove its per-line
    /// directory, unless it is already gone.
    pub fn unexport<P: FnOnce(String) -> bool, W: FnOnce(String, String) -> Result<(), String>>(
        &self,
        number: u32,
        probe: P,
        write: W,
    ) -> (r: Result<(), Error>)
        requires
            probe_callable(probe),
            write_callable(write),
        ensures
            unexport_rel(self.number, number, probe, write, r),
            probe_always(probe, line_dir(self.number as nat, number as nat), false) ==> r == Ok::<
                (),
                Error,
            >(()),
    {
        let line = line_dir_path(self.number, number);
        let present = probe(line);
        proof {
            assert(probe_out(probe, line_dir(self.number as nat, number as nat), present));
        }
        let r = match self.unexport_action(number, present) {
            None => Ok(()),
            Some(pv) => {
                let (p, t) = pv;
                let out = write(p, t);
                proof {
                    assert(write_out(
                        write,
                        chip_file(self.number as nat, "unexport"@),
                        dec_str(number as nat),
                        out,
                    ));
                }
                match out {
                    Ok(u) => {
                        proof {
                            assert(out == Ok::<(), String>(u));
                        }
                        Ok(())
                    },
                    Err(m) => {
                        proof {
                            assert(out == Err::<(), String>(m));
                        }
                        Err(Error::Io(m))
                    },
                }
            },
        };
        proof {
            assert(unexport_rel(self.number, number, probe, write, r));
        }
        r
    }
}

/// A decimal digit is never whitespace.
proof fn lemma_digit_not_space(c: char)
    requires
        text::is_digit(c),
    ensures
        !text::is_space(c),
{
}

/// A non-empty text that neither starts nor ends with whitespace is its own
/// trimmed form.
proof fn lemma_trimmed_fixed(t: Seq<char>)
    requires
        t.len() > 0,
        !text::is_space(t[0]),
        !text::is_space(t[t.len() - 1]),
    ensures
        trimmed(t) == t,
{
    assert(text::skip_spaces(t, 0) == 0);
    assert(text::rskip_spaces(t, t.len() as int) == t.len() as int);
    assert(t.subrange(0, t.len() as int) =~= t);
}

/// Round trip of a numeric attribute: the decimal text that
/// `Pwm::set_duty_cycle_ns` or `Pwm::set_period_ns` writes for a value
/// reads back, through `pwm_file_parse` and so through the getters, as
/// exactly that value.
pub proof fn lemma_number_round_trip(v: u32)
    ensures
        spec_parse_u32(dec_str(v as nat)) == Some(v),
        file_parse_rel(dec_str(v as nat), Ok::<u32, Error>(v)),
{
    let t = dec_str(v as nat);
    text::lemma_dec_str_val(v as nat);
    lemma_digit_not_space(t[0]);
    lemma_digit_not_space(t[t.len() - 1]);
    lemma_trimmed_fixed(t);
}

/// Round trip of the enable attribute: the text that `Pwm::enable` writes
/// for a state reads back, through `pwm_enable_parse` and so through
/// `Pwm::get_enabled`, as exactly that state.
pub proof fn lemma_enable_round_trip(flag: bool)
    ensures
        spec_parse_u32(
            if flag {
                "1"@
            } else {
                "0"@
            },
        ) == Some(
            if flag {
                1u32
            } else {
                0u32
            },
        ),
{
    reveal_strlit("1");
    reveal_strlit("0");
    let t = if flag {
        "1"@
    } else {
        "0"@
    };
    lemma_digit_not_space(t[0]);
    lemma_trimmed_fixed(t);
    assert(t.drop_last() =~= Seq::<char>::empty());
    assert(text::dec_val(Seq::<char>::empty()) == 0);
    assert(t.last() == t[0]);
    assert(text::dec_val(t) == text::digit_val(t[0]));
}

/// Round trip of the polarity attribute: the literal that
/// `Pwm::set_polarity` writes for a polarity parses back, through
/// `pwm_polarity_parse` and so through `Pwm::get_polarity`, as that
/// polarity.
pub proof fn lemma_polarity_round_trip(p: Polarity)
    ensures
        polarity_parse_rel(polarity_text(p), Ok::<Polarity, Error>(p)),
{
    reveal_strlit("normal");
    reveal_strlit("inversed");
    let t = polarity_text(p);
    lemma_trimmed_fixed(t);
}

/// Whether the enable attribute's text honours the kernel contract: if it
/// parses as a number at all, that number is `0` or `1`.
pub open spec fn enable_admissible(out: Result<String, String>) -> bool {
    out matches Ok(s) ==> !(spec_parse_u32(s@) matches Some(v) && v >= 2)
}

/// How the result of reading the enable attribute relates to what the read
/// primitive reported.
pub open spec fn enabled_rel(out: Result<String, String>, r: Result<bool, Error>) -> bool {
    match out {
        Ok(s) => match r {
            Ok(b) => spec_parse_u32(s@) == Some(
                if b {
                    1u32
                } else {
                    0u32
                },
            ),
            Err(e) => spec_parse_u32(s@) is None && (e matches Error::Unexpected(m) && m@ == s@),
        },
        Err(m) => r matches Err(Error::Io(mm)) && mm@ == m@,
    }
}

/// How the result of reading the polarity attribute relates to what the
/// read primitive reported.
pub open spec fn polarity_read_rel(out: Result<String, String>, r: Result<Polarity, Error>) -> bool {
    match out {
        Ok(s) => polarity_parse_rel(s@, r),
        Err(m) => r matches Err(Error::Io(mm)) && mm@ == m@,
    }
}

/// How the result of reading the capture attribute relates to what the read
/// primitive reported.
pub open spec fn capture_read_rel(out: Result<String, String>, r: Result<(u32, u32), Error>) -> bool {
    match out {
        Ok(s) => capture_parse_rel(s@, r),
        Err(m) => r matches Err(Error::Io(mm)) && mm@ == m@,
    }
}

/// The scoped-acquisition exit rule: how the result reported to the caller
/// combines the caller-supplied work's outcome with the outcome of the
/// unconditional release that follows it.
pub open spec fn release_rel(
    work: Result<(), Error>,
    unexp: Result<(), Error>,
    r: Result<(), Error>,
) -> bool {
    match work {
        Ok(_) => r == unexp,
        Err(e) => match unexp {
            Ok(_) => r == Err::<(), Error>(e),
            Err(u) => r matches Err(Error::Compound(bu, bc)) && bu == u && bc == e,
        },
    }
}

/// Combine the outcome of the caller-supplied work with the outcome of the
/// release that followed it: successful work reports the release's outcome;
/// failed work is reported after a successful release; and if both failed,
/// neither error is dropped.
pub fn release_outcome(work: Result<(), Error>, unexp: Result<(), Error>) -> (r: Result<(), Error>)
    ensures
        release_rel(work, unexp, r),
{
    match work {
        Ok(_) => unexp,
        Err(e) => match unexp {
            Ok(_) => Err(e),
            Err(u) => Err(Error::Compound(Box::new(u), Box::new(e))),
        },
    }
}

impl Pwm {
    /// Probe for the controller chip and construct a handle for one of its
    /// channels.  This does not export the channel.
    pub fn new<S: FnOnce(String) -> Result<(), String>>(chip: u32, number: u32, stat: S) -> (r:
        Result<Pwm, Error>)
        requires
            stat_callable(stat),
        ensures
            exists|out: Result<(), String>|
                #[trigger] stat_out(stat, chip_dir(chip as nat), out) && (match out {
                    Ok(_) => r == Ok::<Pwm, Error>(
                        (Pwm { chip: (PwmChip { number: chip }), number }),
                    ),
                    Err(m) => r == Err::<Pwm, Error>(Error::Io(m)),
                }),
    {
        match PwmChip::new(chip, stat) {
            Ok(c) => Ok(Pwm { chip: c, number }),
            Err(e) => Err(e),
        }
    }

    /// Claim this channel; a no-op if it is already exported.
    pub fn export<P: FnOnce(String) -> bool, W: FnOnce(String, String) -> Result<(), String>>(
        &self,
        probe: P,
        write: W,
    ) -> (r: Result<(), Error>)
        requires
            probe_callable(probe),
            write_callable(write),
        ensures
            export_rel(self.chip.number, self.number, probe, write, r),
            probe_always(probe, line_dir(self.chip.number as nat, self.number as nat), true)
                ==> r == Ok::<(), Error>(()),
    {
        self.chip.export(self.number, probe, write)
    }

    /// Release this channel; a no-op if it is not exported.
    pub fn unexport<P: FnOnce(String) -> bool, W: FnOnce(String, String) -> Result<(), String>>(
        &self,
        probe: P,
        write: W,
    ) -> (r: Result<(), Error>)
        requires
            probe_callable(probe),
            write_callable(write),
        ensures
            unexport_rel(self.chip.number, self.number, probe, write, r),
            probe_always(probe, line_dir(self.chip.number as nat, self.number as nat), false)
                ==> r == Ok::<(), Error>(()),
    {
        self.chip.unexport(self.number, probe, write)
    }

    /// Export the channel, run the caller-supplied work, and release the
    /// channel again whatever that work returned: the one sanctioned way to
    /// bracket channel use.  A channel is never left claimed by this call
    /// unless the release itself failed, and then that failure is reported.
    pub fn with_exported<P, W, F>(&self, probe: P, write: W, body: F) -> (r: Result<(), Error>)
        where
            P: FnOnce(String) -> bool + Copy,
            W: FnOnce(String, String) -> Result<(), String> + Copy,
            F: FnOnce() -> Result<(), Error>,

        requires
            probe_callable(probe),
            write_callable(write),
            call_requires(body, ()),
        ensures
            exists|er: Result<(), Error>|
                #[trigger] export_rel(self.chip.number, self.number, probe, write, er) && (
                match er {
                    Err(e) => r == Err::<(), Error>(e),
                    Ok(_) => exists|work: Result<(), Error>, un: Result<(), Error>|
                        #[trigger] call_ensures(body, (), work) && #[trigger] unexport_rel(
                            self.chip.number,
                            self.number,
                            probe,
                            write,
                            un,
                        ) && release_rel(work, un, r),
                }),
    {
        let er = self.export(probe, write);
        match er {
            Err(e) => {
                proof {
                    assert(er == Err::<(), Error>(e));
                }
                Err(e)
            },
            Ok(_) => {
                let work = body();
                let un = self.unexport(probe, write);
                release_outcome(work, un)
            },
        }
    }

    /// Write the text of one attribute file of this channel.
    fn write_attr<W: FnOnce(String, String) -> Result<(), String>>(
        &self,
        name: &str,
        text: String,
        write: W,
    ) -> (r: Result<(), Error>)
        requires
            write_callable(write),
        ensures
            write_result_rel(
                write,
                line_file(self.chip.number as nat, self.number as nat, name@),
                text@,
                r,
            ),
    {
        let path = line_file_path(self.chip.number, self.number, name);
        let ghost tview = text@;
        let out = write(path, text);
        proof {
            assert(write_out(
                write,
                line_file(self.chip.number as nat, self.number as nat, name@),
                tview,
                out,
            ));
        }
        match out {
            Ok(u) => {
                proof {
                    assert(out == Ok::<(), String>(u));
                }
                Ok(())
            },
            Err(m) => {
                proof {
                    assert(out == Err::<(), String>(m));
                }
                Err(Error::Io(m))
            },
        }
    }

    /// Read the text of one attribute file of this channel.
    fn read_attr<R: FnOnce(String) -> Result<String, String>>(&self, name: &str, read: R) -> (out:
        Result<String, String>)
        requires
            read_callable(read),
        ensures
            read_out(read, line_file(self.chip.number as nat, self.number as nat, name@), out),
    {
        let path = line_file_path(self.chip.number, self.number, name);
        let out = read(path);
        proof {
            assert(read_out(
                read,
                line_file(self.chip.number as nat, self.number as nat, name@),
                out,
            ));
        }
        out
    }

    /// Enable or disable the PWM signal: writes `1` or `0` to the enable
    /// attribute.
    pub fn enable<W: FnOnce(String, String) -> Result<(), String>>(
        &self,
        flag: bool,
        write: W,
    ) -> (r: Result<(), Error>)
        requires
            write_callable(write),
        ensures
            write_result_rel(
                write,
                line_file(self.chip.number as nat, self.number as nat, "enable"@),
                (if flag {
                    "1"@
                } else {
                    "0"@
                }),
                r,
            ),
    {
        let text = if flag {
            String::from_str("1")
        } else {
            String::from_str("0")
        };
        self.write_attr("enable", text, write)
    }

    /// Query whether the PWM signal is enabled.  The kernel promises the
    /// attribute holds `0` or `1`; the supplied read must uphold that, and
    /// the caller of the primitive is expected to treat any other number as
    /// a fatal violation of the kernel contract.
    pub fn get_enabled<R: FnOnce(String) -> Result<String, String>>(&self, read: R) -> (r: Result<
        bool,
        Error,
    >)
        requires
            read_callable(read),
            forall|out: Result<String, String>|
                #[trigger] read_out(
                    read,
                    line_file(self.chip.number as nat, self.number as nat, "enable"@),
                    out,
                ) ==> enable_admissible(out),
        ensures
            exists|out: Result<String, String>|
                #[trigger] read_out(
                    read,
                    line_file(self.chip.number as nat, self.number as nat, "enable"@),
                    out,
                ) && enabled_rel(out, r),
    {
        let out = self.read_attr("enable", read);
        match out {
            Ok(s) => {
                proof {
                    assert(out == Ok::<String, String>(s));
                }
                match pwm_enable_parse(s.as_str()) {
                    Ok(Some(b)) => Ok(b),
                    Ok(None) => unreached(),
                    Err(e) => Err(e),
                }
            },
            Err(m) => {
                proof {
                    assert(out == Err::<String, String>(m));
                }
                Err(Error::Io(m))
            },
        }
    }

    /// Read the currently configured period, in nanoseconds.
    pub fn get_period_ns<R: FnOnce(String) -> Result<String, String>>(&self, read: R) -> (r:
        Result<u32, Error>)
        requires
            read_callable(read),
        ensures
            exists|out: Result<String, String>|
                #[trigger] read_out(
                    read,
                    line_file(self.chip.number as nat, self.number as nat, "period"@),
                    out,
                ) && read_number_rel(out, r),
    {
        let out = self.read_attr("period", read);
        match out {
            Ok(s) => {
                proof {
                    assert(out == Ok::<String, String>(s));
                }
                pwm_file_parse(s.as_str())
            },
            Err(m) => {
                proof {
                    assert(out == Err::<String, String>(m));
                }
                Err(Error::Io(m))
            },
        }
    }

    /// Read the currently configured duty cycle, in nanoseconds.
    pub fn get_duty_cycle_ns<R: FnOnce(String) -> Result<String, String>>(&self, read: R) -> (r:
        Result<u32, Error>)
        requires
            read_callable(read),
        ensures
            exists|out: Result<String, String>|
                #[trigger] read_out(
                    read,
                    line_file(self.chip.number as nat, self.number as nat, "duty_cycle"@),
                    out,
                ) && read_number_rel(out, r),
    {
        let out = self.read_attr("duty_cycle", read);
        match out {
            Ok(s) => {
                proof {
                    assert(out == Ok::<String, String>(s));
                }
                pwm_file_parse(s.as_str())
            },
            Err(m) => {
                proof {
                    assert(out == Err::<String, String>(m));
                }
                Err(Error::Io(m))
            },
        }
    }

    /// Read the measured (period, duty) pair from the capture attribute.
    pub fn get_capture<R: FnOnce(String) -> Result<String, String>>(&self, read: R) -> (r: Result<
        (u32, u32),
        Error,
    >)
        requires
            read_callable(read),
        ensures
            exists|out: Result<String, String>|
                #[trigger] read_out(
                    read,
                    line_file(self.chip.number as nat, self.number as nat, "capture"@),
                    out,
                ) && capture_read_rel(out, r),
    {
        let out = self.read_attr("capture", read);
        match out {
            Ok(s) => {
                proof {
                    assert(out == Ok::<String, String>(s));
                }
                pwm_capture_pair(s.as_str())
            },
            Err(m) => {
                proof {
                    assert(out == Err::<String, String>(m));
                }
                Err(Error::Io(m))
            },
        }
    }

    /// Configure the period of the signal: writes the value as decimal text
    /// to the period attribute.  No range validation is performed here; the
    /// kernel driver is authoritative.
    pub fn set_period_ns<W: FnOnce(String, String) -> Result<(), String>>(
        &self,
        period_ns: u32,
        write: W,
    ) -> (r: Result<(), Error>)
        requires
            write_callable(write),
        ensures
            write_result_rel(
                write,
                line_file(self.chip.number as nat, self.number as nat, "period"@),
                dec_str(period_ns as nat),
                r,
            ),
    {
        self.write_attr("period", u32_string(period_ns), write)
    }

    /// Configure the active time of the signal: writes the value as decimal
    /// text to the duty-cycle attribute.  The kernel rejects a duty cycle
    /// exceeding the period; that rejection surfaces as the write's failure.
    pub fn set_duty_cycle_ns<W: FnOnce(String, String) -> Result<(), String>>(
        &self,
        duty_cycle_ns: u32,
        write: W,
    ) -> (r: Result<(), Error>)
        requires
            write_callable(write),
        ensures
            write_result_rel(
                write,
                line_file(self.chip.number as nat, self.number as nat, "duty_cycle"@),
                dec_str(duty_cycle_ns as nat),
                r,
            ),
    {
        self.write_attr("duty_cycle", u32_string(duty_cycle_ns), write)
    }

    /// Configure the polarity of the signal: writes the literal `normal` or
    /// `inversed` to the polarity attribute.
    pub fn set_polarity<W: FnOnce(String, String) -> Result<(), String>>(
        &self,
        polarity: Polarity,
        write: W,
    ) -> (r: Result<(), Error>)
        requires
            write_callable(write),
        ensures
            write_result_rel(
                write,
                line_file(self.chip.number as nat, self.number as nat, "polarity"@),
                polarity_text(polarity),
                r,
            ),
    {
        let text = match polarity {
            Polarity::Normal => String::from_str("normal"),
            Polarity::Inverse => String::from_str("inversed"),
        };
        self.write_attr("polarity", text, write)
    }

    /// Read the configured polarity of the signal.
    pub fn get_polarity<R: FnOnce(String) -> Result<String, String>>(&self, read: R) -> (r:
        Result<Polarity, Error>)
        requires
            read_callable(read),
        ensures
            exists|out: Result<String, String>|
                #[trigger] read_out(
                    read,
                    line_file(self.chip.number as nat, self.number as nat, "polarity"@),
                    out,
                ) && polarity_read_rel(out, r),
    {
        let out = self.read_attr("polarity", read);
        match out {
            Ok(s) => {
                proof {
                    assert(out == Ok::<String, String>(s));
                }
                pwm_polarity_parse(s.as_str())
            },
            Err(m) => {
                proof {
                    assert(out == Err::<String, String>(m));
                }
                Err(Error::Io(m))
            },
        }
    }
}

} // verus!
