use vstd::prelude::*;

verus! {

/// Whether two strings hold the same characters.
pub fn same_text(a: &str, b: &str) -> (eq: bool)
    ensures
        eq == (a@ == b@),
{
    a.to_owned() == b.to_owned()
}

/// The hitbox configuration entry edited for a calibration key: the closed
/// gate edits the "gate" entry, the open gate the "gate_open" entry, and
/// every other key edits the entry of the same name.
pub fn hitbox_calibration_config_key(key: &str) -> (k: &str)
    ensures
        k@ == (if key@ == "gate_closed"@ {
            "gate"@
        } else if key@ == "gate_open"@ {
            "gate_open"@
        } else {
            key@
        }),
{
    if same_text(key, "gate_closed") {
        "gate"
    } else if same_text(key, "gate_open") {
        "gate_open"
    } else {
        key
    }
}

/// The template whose geometry a calibration key shows: both gate keys
/// show the "gate" template, every other key the template of its name.
pub fn hitbox_calibration_template_key(key: &str) -> (k: &str)
    ensures
        k@ == (if key@ == "gate_closed"@ || key@ == "gate_open"@ {
            "gate"@
        } else {
            key@
        }),
{
    if same_text(key, "gate_closed") || same_text(key, "gate_open") {
        "gate"
    } else {
        key
    }
}

/// Whether a placement of this model becomes a dynamic gate.
pub fn is_gate_model(model: &str) -> (b: bool)
    ensures
        b == (model@ == "gate"@),
{
    same_text(model, "gate")
}

/// The hitbox entry that applies to a gate: "gate_open" once it has
/// opened far enough to let players through, "gate" before that.
pub fn gate_mask_key(open_enough: bool) -> (k: &'static str)
    ensures
        k@ == (if open_enough {
            "gate_open"@
        } else {
            "gate"@
        }),
{
    if open_enough {
        "gate_open"
    } else {
        "gate"
    }
}

} // verus!
