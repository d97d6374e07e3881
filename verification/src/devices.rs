//! The device list as text, one block per device.

use crate::codec::append_bytes;
use vstd::prelude::*;
use vstd::string::StringSliceAdditionalSpecFns;

verus! {

/// How often the devices are asked for before an empty list is taken for an
/// answer.
pub const DEVICE_QUERY_TRIES: u32 = 9;

/// The value of a device parameter.
#[derive(Clone, Debug, PartialEq, Eq)]
pub enum ParamValue {
    Bool(bool),
    /// A floating-point value, as the text that shows it.
    Float(Vec<u8>),
    Int(i32),
    /// A value of another kind.
    Other,
}

/// A device parameter.
#[derive(Clone, Debug, PartialEq, Eq)]
pub struct Param {
    pub name: Vec<u8>,
    pub value: ParamValue,
}

/// A device, as the robot reports it.
#[derive(Clone, Debug, PartialEq, Eq)]
pub struct Device {
    pub type_id: u32,
    pub uid: u64,
    pub name: Vec<u8>,
    pub params: Vec<Param>,
}

/// A parameter value, as a mathematical value.
pub enum ParamValueModel {
    Bool(bool),
    Float(Seq<u8>),
    Int(i32),
    Other,
}

/// A parameter, as a mathematical value.
pub struct ParamModel {
    pub name: Seq<u8>,
    pub value: ParamValueModel,
}

/// A device, as a mathematical value.
pub struct DeviceModel {
    pub type_id: u32,
    pub uid: u64,
    pub name: Seq<u8>,
    pub params: Seq<ParamModel>,
}

impl View for ParamValue {
    type V = ParamValueModel;

    open spec fn view(&self) -> ParamValueModel {
        match self {
            ParamValue::Bool(value) => ParamValueModel::Bool(*value),
            ParamValue::Float(text) => ParamValueModel::Float(text@),
            ParamValue::Int(value) => ParamValueModel::Int(*value),
            ParamValue::Other => ParamValueModel::Other,
        }
    }
}

impl View for Param {
    type V = ParamModel;

    open spec fn view(&self) -> ParamModel {
        ParamModel { name: self.name@, value: self.value@ }
    }
}

impl View for Device {
    type V = DeviceModel;

    open spec fn view(&self) -> DeviceModel {
        DeviceModel {
            type_id: self.type_id,
            uid: self.uid,
            name: self.name@,
            params: Seq::new(self.params@.len(), |i: int| self.params@[i]@),
        }
    }
}

/// The models of a list of devices, in order.
pub open spec fn device_models(devices: Seq<Device>) -> Seq<DeviceModel> {
    Seq::new(devices.len(), |i: int| devices[i]@)
}

/// The character that shows a digit.
pub open spec fn digit_char(digit: nat) -> u8
    recommends
        digit < 10,
{
    (0x30 + digit) as u8
}

/// A number in decimal digits, without leading zeros.
pub open spec fn decimal(n: nat) -> Seq<u8>
    decreases n,
{
    if n < 10 {
        seq![digit_char(n)]
    } else {
        decimal(n / 10).push(digit_char(n % 10))
    }
}

/// A number with a sign in decimal digits: a minus before a negative one.
pub open spec fn signed_decimal(n: int) -> Seq<u8> {
    if n < 0 {
        seq![0x2Du8] + decimal((-n) as nat)
    } else {
        decimal(n as nat)
    }
}

/// The text that shows a parameter's value.
pub open spec fn value_text(value: ParamValueModel) -> Seq<u8> {
    match value {
        ParamValueModel::Bool(value) => if value {
            "true".spec_bytes()
        } else {
            "false".spec_bytes()
        },
        ParamValueModel::Float(text) => text,
        ParamValueModel::Int(value) => signed_decimal(value as int),
        ParamValueModel::Other => "Unknown".spec_bytes(),
    }
}

/// The line that shows a parameter: its name, a dash, its value.
pub open spec fn param_line(param: ParamModel) -> Seq<u8> {
    param.name + " - ".spec_bytes() + value_text(param.value) + "\n".spec_bytes()
}

/// The lines that show the first `count` parameters.
pub open spec fn param_lines(params: Seq<ParamModel>, count: int) -> Seq<u8>
    decreases count,
{
    if count <= 0 {
        Seq::empty()
    } else {
        param_lines(params, count - 1) + param_line(params[count - 1])
    }
}

/// The line that heads a device's block. The device that carries custom data
/// is shown as a stopwatch; every other by type, number and name.
pub open spec fn device_head(device: DeviceModel) -> Seq<u8> {
    if device.name == "CustomData".spec_bytes() {
        decimal(device.uid as nat) + " (Stopwatch)\n".spec_bytes()
    } else {
        decimal(device.type_id as nat) + "_".spec_bytes() + decimal(device.uid as nat)
            + " (".spec_bytes() + device.name + ")\n".spec_bytes()
    }
}

/// A device's block: its head, its parameters, two empty lines.
pub open spec fn device_block(device: DeviceModel) -> Seq<u8> {
    device_head(device) + param_lines(device.params, device.params.len() as int)
        + "\n\n".spec_bytes()
}

/// The blocks of the first `count` devices.
pub open spec fn device_blocks(devices: Seq<DeviceModel>, count: int) -> Seq<u8>
    decreases count,
{
    if count <= 0 {
        Seq::empty()
    } else {
        device_blocks(devices, count - 1) + device_block(devices[count - 1])
    }
}

/// Appends a number in decimal digits.
pub fn push_decimal(out: &mut Vec<u8>, n: u64)
    ensures
        final(out)@ == old(out)@ + decimal(n as nat),
    decreases n,
{
    if n >= 10 {
        push_decimal(out, n / 10);
    }
    out.push(0x30 + (n % 10) as u8);
    assert(out@ =~= old(out)@ + decimal(n as nat));
}

/// Appends a number with a sign in decimal digits.
pub fn push_signed_decimal(out: &mut Vec<u8>, n: i32)
    ensures
        final(out)@ == old(out)@ + signed_decimal(n as int),
{
    if n < 0 {
        out.push(0x2D);
        let magnitude: u64 = (-(n as i64)) as u64;
        push_decimal(out, magnitude);
        assert(out@ =~= old(out)@ + signed_decimal(n as int));
    } else {
        push_decimal(out, n as u64);
    }
}

/// Whether two byte strings are the same.
pub fn same_bytes(left: &[u8], right: &[u8]) -> (out: bool)
    ensures
        out == (left@ == right@),
{
    if left.len() != right.len() {
        return false;
    }
    let mut i: usize = 0;
    while i < left.len()
        invariant
            i <= left.len(),
            left@.len() == right@.len(),
            forall|j: int| 0 <= j < i ==> left@[j] == right@[j],
        decreases left.len() - i,
    {
        if left[i] != right[i] {
            return false;
        }
        i = i + 1;
    }
    assert(left@ =~= right@);
    true
}

/// Appends the line that shows a parameter.
fn push_param(out: &mut Vec<u8>, param: &Param)
    ensures
        final(out)@ == old(out)@ + param_line(param@),
{
    append_bytes(out, param.name.as_slice());
    append_bytes(out, " - ".as_bytes());
    match &param.value {
        ParamValue::Bool(value) => {
            if *value {
                append_bytes(out, "true".as_bytes());
            } else {
                append_bytes(out, "false".as_bytes());
            }
        },
        ParamValue::Float(text) => {
            append_bytes(out, text.as_slice());
        },
        ParamValue::Int(value) => {
            push_signed_decimal(out, *value);
        },
        ParamValue::Other => {
            append_bytes(out, "Unknown".as_bytes());
        },
    }
    append_bytes(out, "\n".as_bytes());
    assert(out@ =~= old(out)@ + param_line(param@));
}

/// Appends a device's block.
fn push_device(out: &mut Vec<u8>, device: &Device)
    ensures
        final(out)@ == old(out)@ + device_block(device@),
{
    if same_bytes(device.name.as_slice(), "CustomData".as_bytes()) {
        push_decimal(out, device.uid);
        append_bytes(out, " (Stopwatch)\n".as_bytes());
    } else {
        push_decimal(out, device.type_id as u64);
        append_bytes(out, "_".as_bytes());
        push_decimal(out, device.uid);
        append_bytes(out, " (".as_bytes());
        append_bytes(out, device.name.as_slice());
        append_bytes(out, ")\n".as_bytes());
    }
    assert(out@ =~= old(out)@ + device_head(device@));
    let ghost headed = out@;
    let mut i: usize = 0;
    while i < device.params.len()
        invariant
            i <= device.params.len(),
            out@ == headed + param_lines(device@.params, i as int),
        decreases device.params.len() - i,
    {
        let ghost before = out@;
        push_param(out, &device.params[i]);
        proof {
            assert(device@.params[i as int] == device.params@[i as int]@);
            assert(out@ =~= headed + param_lines(device@.params, i + 1));
        }
        i = i + 1;
    }
    append_bytes(out, "\n\n".as_bytes());
    assert(out@ =~= old(out)@ + device_block(device@));
}

/// Shows a list of devices as text: one block per device, in order.
pub fn render_devices(devices: &Vec<Device>) -> (out: Vec<u8>)
    ensures
        out@ == device_blocks(device_models(devices@), devices@.len() as int),
{
    let mut out: Vec<u8> = Vec::new();
    let mut i: usize = 0;
    while i < devices.len()
        invariant
            i <= devices.len(),
            out@ == device_blocks(device_models(devices@), i as int),
        decreases devices.len() - i,
    {
        push_device(&mut out, &devices[i]);
        proof {
            assert(device_models(devices@)[i as int] == devices@[i as int]@);
        }
        i = i + 1;
    }
    out
}

} // verus!
