//! The filesystem paths the PWM protocol touches, under the fixed sysfs
//! prefix, parameterized by chip index and channel index.

use vstd::prelude::*;
use vstd::string::StringExecFns;

use crate::text::dec_str;
use crate::text::u32_string;

verus! {

/// The directory of a controller chip: `/sys/class/pwm/pwmchipC`.
pub open spec fn chip_dir(chip: nat) -> Seq<char> {
    "/sys/class/pwm/pwmchip"@ + dec_str(chip)
}

/// A control file directly under the chip directory (`npwm`, `export`,
/// `unexport`).
pub open spec fn chip_file(chip: nat, name: Seq<char>) -> Seq<char> {
    chip_dir(chip) + "/"@ + name
}

/// The directory of one exported channel: `.../pwmchipC/pwmN`.
pub open spec fn line_dir(chip: nat, pin: nat) -> Seq<char> {
    chip_dir(chip) + "/pwm"@ + dec_str(pin)
}

/// An attribute file of one channel (`enable`, `period`, `duty_cycle`,
/// `polarity`, `capture`).
pub open spec fn line_file(chip: nat, pin: nat, name: Seq<char>) -> Seq<char> {
    line_dir(chip, pin) + "/"@ + name
}

/// Build the chip directory path.
pub fn chip_dir_path(chip: u32) -> (r: String)
    ensures
        r@ == chip_dir(chip as nat),
{
    let mut r = String::from_str("/sys/class/pwm/pwmchip");
    let num = u32_string(chip);
    r.append(num.as_str());
    r
}

/// Build the path of a control file under the chip directory.
pub fn chip_file_path(chip: u32, name: &str) -> (r: String)
    ensures
        r@ == chip_file(chip as nat, name@),
{
    let mut r = chip_dir_path(chip);
    r.append("/");
    r.append(name);
    proof {
        assert(r@ =~= chip_file(chip as nat, name@));
    }
    r
}

/// Build the directory path of one channel.
pub fn line_dir_path(chip: u32, pin: u32) -> (r: String)
    ensures
        r@ == line_dir(chip as nat, pin as nat),
{
    let mut r = chip_dir_path(chip);
    r.append("/pwm");
    let num = u32_string(pin);
    r.append(num.as_str());
    proof {
        assert(r@ =~= line_dir(chip as nat, pin as nat));
    }
    r
}

/// Build the path of one channel attribute file.
pub fn line_file_path(chip: u32, pin: u32, name: &str) -> (r: String)
    ensures
        r@ == line_file(chip as nat, pin as nat, name@),
{
    let mut r = line_dir_path(chip, pin);
    r.append("/");
    r.append(name);
    proof {
        assert(r@ =~= line_file(chip as nat, pin as nat, name@));
    }
    r
}

} // verus!
