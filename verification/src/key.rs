//! Universal labels and material identifiers.

use vstd::prelude::*;

verus! {

/// A 16-byte universal label: the type of a metadata set, the role of an
/// item, or the instance identifier of a set. Two keys are equal exactly
/// when all sixteen octets are.
#[derive(Clone, Copy, Debug, PartialEq, Eq, Structural, Hash)]
pub struct MXFKey {
    pub octet0: u8,
    pub octet1: u8,
    pub octet2: u8,
    pub octet3: u8,
    pub octet4: u8,
    pub octet5: u8,
    pub octet6: u8,
    pub octet7: u8,
    pub octet8: u8,
    pub octet9: u8,
    pub octet10: u8,
    pub octet11: u8,
    pub octet12: u8,
    pub octet13: u8,
    pub octet14: u8,
    pub octet15: u8,
}

impl MXFKey {
    /// The sixteen octets in order.
    pub open spec fn octets(self) -> Seq<u8> {
        seq![self.octet0, self.octet1, self.octet2, self.octet3, self.octet4, self.octet5, self.octet6, self.octet7, self.octet8, self.octet9, self.octet10, self.octet11, self.octet12, self.octet13, self.octet14, self.octet15]
    }

    /// The key whose octets are the arguments in order.
    pub open spec fn spec_new(
        o0: u8, o1: u8, o2: u8, o3: u8, o4: u8, o5: u8, o6: u8, o7: u8,
        o8: u8, o9: u8, o10: u8, o11: u8, o12: u8, o13: u8, o14: u8, o15: u8,
    ) -> MXFKey {
        MXFKey {
            octet0: o0,
            octet1: o1,
            octet2: o2,
            octet3: o3,
            octet4: o4,
            octet5: o5,
            octet6: o6,
            octet7: o7,
            octet8: o8,
            octet9: o9,
            octet10: o10,
            octet11: o11,
            octet12: o12,
            octet13: o13,
            octet14: o14,
            octet15: o15,
        }
    }

    #[verifier::when_used_as_spec(spec_new)]
    pub fn new(
        o0: u8, o1: u8, o2: u8, o3: u8, o4: u8, o5: u8, o6: u8, o7: u8,
        o8: u8, o9: u8, o10: u8, o11: u8, o12: u8, o13: u8, o14: u8, o15: u8,
    ) -> (key: MXFKey)
        ensures
            key == MXFKey::spec_new(o0, o1, o2, o3, o4, o5, o6, o7, o8, o9, o10, o11, o12, o13, o14, o15),
    {
        MXFKey {
            octet0: o0,
            octet1: o1,
            octet2: o2,
            octet3: o3,
            octet4: o4,
            octet5: o5,
            octet6: o6,
            octet7: o7,
            octet8: o8,
            octet9: o9,
            octet10: o10,
            octet11: o11,
            octet12: o12,
            octet13: o13,
            octet14: o14,
            octet15: o15,
        }
    }
}

impl Default for MXFKey {
    /// The all-zero key.
    fn default() -> (key: MXFKey)
        ensures
            key.octets() == Seq::new(16, |i: int| 0u8),
    {
        MXFKey {
            octet0: 0,
            octet1: 0,
            octet2: 0,
            octet3: 0,
            octet4: 0,
            octet5: 0,
            octet6: 0,
            octet7: 0,
            octet8: 0,
            octet9: 0,
            octet10: 0,
            octet11: 0,
            octet12: 0,
            octet13: 0,
            octet14: 0,
            octet15: 0,
        }
    }
}

/// A 32-byte unique material identifier of a package. Two identifiers are
/// equal exactly when all thirty-two octets are; the all-zero identifier
/// stands for "no reference".
#[derive(Clone, Copy, Debug, PartialEq, Eq, Structural, Hash)]
pub struct MXFUmid {
    pub octet0: u8,
    pub octet1: u8,
    pub octet2: u8,
    pub octet3: u8,
    pub octet4: u8,
    pub octet5: u8,
    pub octet6: u8,
    pub octet7: u8,
    pub octet8: u8,
    pub octet9: u8,
    pub octet10: u8,
    pub octet11: u8,
    pub octet12: u8,
    pub octet13: u8,
    pub octet14: u8,
    pub octet15: u8,
    pub octet16: u8,
    pub octet17: u8,
    pub octet18: u8,
    pub octet19: u8,
    pub octet20: u8,
    pub octet21: u8,
    pub octet22: u8,
    pub octet23: u8,
    pub octet24: u8,
    pub octet25: u8,
    pub octet26: u8,
    pub octet27: u8,
    pub octet28: u8,
    pub octet29: u8,
    pub octet30: u8,
    pub octet31: u8,
}

impl MXFUmid {
    /// The thirty-two octets in order.
    pub open spec fn octets(self) -> Seq<u8> {
        seq![self.octet0, self.octet1, self.octet2, self.octet3, self.octet4, self.octet5, self.octet6, self.octet7, self.octet8, self.octet9, self.octet10, self.octet11, self.octet12, self.octet13, self.octet14, self.octet15, self.octet16, self.octet17, self.octet18, self.octet19, self.octet20, self.octet21, self.octet22, self.octet23, self.octet24, self.octet25, self.octet26, self.octet27, self.octet28, self.octet29, self.octet30, self.octet31]
    }

    /// Whether this is the all-zero identifier that refers to nothing.
    pub open spec fn spec_is_null(self) -> bool {
        &&& self.octet0 == 0
        &&& self.octet1 == 0
        &&& self.octet2 == 0
        &&& self.octet3 == 0
        &&& self.octet4 == 0
        &&& self.octet5 == 0
        &&& self.octet6 == 0
        &&& self.octet7 == 0
        &&& self.octet8 == 0
        &&& self.octet9 == 0
        &&& self.octet10 == 0
        &&& self.octet11 == 0
        &&& self.octet12 == 0
        &&& self.octet13 == 0
        &&& self.octet14 == 0
        &&& self.octet15 == 0
        &&& self.octet16 == 0
        &&& self.octet17 == 0
        &&& self.octet18 == 0
        &&& self.octet19 == 0
        &&& self.octet20 == 0
        &&& self.octet21 == 0
        &&& self.octet22 == 0
        &&& self.octet23 == 0
        &&& self.octet24 == 0
        &&& self.octet25 == 0
        &&& self.octet26 == 0
        &&& self.octet27 == 0
        &&& self.octet28 == 0
        &&& self.octet29 == 0
        &&& self.octet30 == 0
        &&& self.octet31 == 0
    }

    /// The umid whose octets are the arguments in order.
    pub open spec fn spec_new(
        o0: u8, o1: u8, o2: u8, o3: u8, o4: u8, o5: u8, o6: u8, o7: u8,
        o8: u8, o9: u8, o10: u8, o11: u8, o12: u8, o13: u8, o14: u8, o15: u8,
        o16: u8, o17: u8, o18: u8, o19: u8, o20: u8, o21: u8, o22: u8, o23: u8,
        o24: u8, o25: u8, o26: u8, o27: u8, o28: u8, o29: u8, o30: u8, o31: u8,
    ) -> MXFUmid {
        MXFUmid {
            octet0: o0,
            octet1: o1,
            octet2: o2,
            octet3: o3,
            octet4: o4,
            octet5: o5,
            octet6: o6,
            octet7: o7,
            octet8: o8,
            octet9: o9,
            octet10: o10,
            octet11: o11,
            octet12: o12,
            octet13: o13,
            octet14: o14,
            octet15: o15,
            octet16: o16,
            octet17: o17,
            octet18: o18,
            octet19: o19,
            octet20: o20,
            octet21: o21,
            octet22: o22,
            octet23: o23,
            octet24: o24,
            octet25: o25,
            octet26: o26,
            octet27: o27,
            octet28: o28,
            octet29: o29,
            octet30: o30,
            octet31: o31,
        }
    }

    #[verifier::when_used_as_spec(spec_new)]
    pub fn new(
        o0: u8, o1: u8, o2: u8, o3: u8, o4: u8, o5: u8, o6: u8, o7: u8,
        o8: u8, o9: u8, o10: u8, o11: u8, o12: u8, o13: u8, o14: u8, o15: u8,
        o16: u8, o17: u8, o18: u8, o19: u8, o20: u8, o21: u8, o22: u8, o23: u8,
        o24: u8, o25: u8, o26: u8, o27: u8, o28: u8, o29: u8, o30: u8, o31: u8,
    ) -> (umid: MXFUmid)
        ensures
            umid == MXFUmid::spec_new(o0, o1, o2, o3, o4, o5, o6, o7, o8, o9, o10, o11, o12, o13, o14, o15, o16, o17, o18, o19, o20, o21, o22, o23, o24, o25, o26, o27, o28, o29, o30, o31),
    {
        MXFUmid {
            octet0: o0,
            octet1: o1,
            octet2: o2,
            octet3: o3,
            octet4: o4,
            octet5: o5,
            octet6: o6,
            octet7: o7,
            octet8: o8,
            octet9: o9,
            octet10: o10,
            octet11: o11,
            octet12: o12,
            octet13: o13,
            octet14: o14,
            octet15: o15,
            octet16: o16,
            octet17: o17,
            octet18: o18,
            octet19: o19,
            octet20: o20,
            octet21: o21,
            octet22: o22,
            octet23: o23,
            octet24: o24,
            octet25: o25,
            octet26: o26,
            octet27: o27,
            octet28: o28,
            octet29: o29,
            octet30: o30,
            octet31: o31,
        }
    }
}

impl Default for MXFUmid {
    /// The all-zero identifier.
    fn default() -> (umid: MXFUmid)
        ensures
            umid.spec_is_null(),
    {
        MXFUmid {
            octet0: 0,
            octet1: 0,
            octet2: 0,
            octet3: 0,
            octet4: 0,
            octet5: 0,
            octet6: 0,
            octet7: 0,
            octet8: 0,
            octet9: 0,
            octet10: 0,
            octet11: 0,
            octet12: 0,
            octet13: 0,
            octet14: 0,
            octet15: 0,
            octet16: 0,
            octet17: 0,
            octet18: 0,
            octet19: 0,
            octet20: 0,
            octet21: 0,
            octet22: 0,
            octet23: 0,
            octet24: 0,
            octet25: 0,
            octet26: 0,
            octet27: 0,
            octet28: 0,
            octet29: 0,
            octet30: 0,
            octet31: 0,
        }
    }
}

} // verus!
