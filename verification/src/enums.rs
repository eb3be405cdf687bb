//! The enumerations of the OpenSCENARIO schema, each with the name it is written
//! under in a document.  Every enumeration reads its names back exactly: the name of a
//! value parses to that value, and only the listed names parse.
use vstd::prelude::*;
use vstd::string::*;
use crate::text::str_eq;
use crate::duplicate::Duplicate;
use crate::basic::ParamValue;

verus! {

/// Vehicle category enumeration
#[derive(Debug, Clone, Copy, PartialEq, Eq, Hash)]
pub enum VehicleCategory {
    Car,
    Van,
    Truck,
    Semitrailer,
    Bus,
    Motorbike,
    Bicycle,
    Train,
    Tram,
    Trailer,
}

impl VehicleCategory {
    /// The name under which this value is written.
    pub open spec fn wire_name(self) -> Seq<char> {
        match self {
            VehicleCategory::Car => seq!['c', 'a', 'r'],
            VehicleCategory::Van => seq!['v', 'a', 'n'],
            VehicleCategory::Truck => seq!['t', 'r', 'u', 'c', 'k'],
            VehicleCategory::Semitrailer => seq!['s', 'e', 'm', 'i', 't', 'r', 'a', 'i', 'l', 'e', 'r'],
            VehicleCategory::Bus => seq!['b', 'u', 's'],
            VehicleCategory::Motorbike => seq!['m', 'o', 't', 'o', 'r', 'b', 'i', 'k', 'e'],
            VehicleCategory::Bicycle => seq!['b', 'i', 'c', 'y', 'c', 'l', 'e'],
            VehicleCategory::Train => seq!['t', 'r', 'a', 'i', 'n'],
            VehicleCategory::Tram => seq!['t', 'r', 'a', 'm'],
            VehicleCategory::Trailer => seq!['t', 'r', 'a', 'i', 'l', 'e', 'r'],
        }
    }

    /// The value written under `s`, if any.
    pub open spec fn from_wire_name(s: Seq<char>) -> Option<VehicleCategory> {
        if s == VehicleCategory::Car.wire_name() {
            Some(VehicleCategory::Car)
        } else if s == VehicleCategory::Van.wire_name() {
            Some(VehicleCategory::Van)
        } else if s == VehicleCategory::Truck.wire_name() {
            Some(VehicleCategory::Truck)
        } else if s == VehicleCategory::Semitrailer.wire_name() {
            Some(VehicleCategory::Semitrailer)
        } else if s == VehicleCategory::Bus.wire_name() {
            Some(VehicleCategory::Bus)
        } else if s == VehicleCategory::Motorbike.wire_name() {
            Some(VehicleCategory::Motorbike)
        } else if s == VehicleCategory::Bicycle.wire_name() {
            Some(VehicleCategory::Bicycle)
        } else if s == VehicleCategory::Train.wire_name() {
            Some(VehicleCategory::Train)
        } else if s == VehicleCategory::Tram.wire_name() {
            Some(VehicleCategory::Tram)
        } else if s == VehicleCategory::Trailer.wire_name() {
            Some(VehicleCategory::Trailer)
        } else {
            None
        }
    }

    /// Every value, in declaration order.
    pub open spec fn all_values() -> Seq<VehicleCategory> {
        seq![VehicleCategory::Car, VehicleCategory::Van, VehicleCategory::Truck, VehicleCategory::Semitrailer, VehicleCategory::Bus, VehicleCategory::Motorbike, VehicleCategory::Bicycle, VehicleCategory::Train, VehicleCategory::Tram, VehicleCategory::Trailer]
    }

    /// The name under which this value is written.
    pub fn as_str(&self) -> (r: &'static str)
        ensures
            r@ == self.wire_name(),
    {
        match self {
            VehicleCategory::Car => {
                proof {
                    reveal_strlit("car");
                }
                "car"
            },
            VehicleCategory::Van => {
                proof {
                    reveal_strlit("van");
                }
                "van"
            },
            VehicleCategory::Truck => {
                proof {
                    reveal_strlit("truck");
                }
                "truck"
            },
            VehicleCategory::Semitrailer => {
                proof {
                    reveal_strlit("semitrailer");
                }
                "semitrailer"
            },
            VehicleCategory::Bus => {
                proof {
                    reveal_strlit("bus");
                }
                "bus"
            },
            VehicleCategory::Motorbike => {
                proof {
                    reveal_strlit("motorbike");
                }
                "motorbike"
            },
            VehicleCategory::Bicycle => {
                proof {
                    reveal_strlit("bicycle");
                }
                "bicycle"
            },
            VehicleCategory::Train => {
                proof {
                    reveal_strlit("train");
                }
                "train"
            },
            VehicleCategory::Tram => {
                proof {
                    reveal_strlit("tram");
                }
                "tram"
            },
            VehicleCategory::Trailer => {
                proof {
                    reveal_strlit("trailer");
                }
                "trailer"
            },
        }
    }

    /// The name under which this value is written, as an owned string.
    pub fn to_string(&self) -> (r: String)
        ensures
            r@ == self.wire_name(),
    {
        self.as_str().to_owned()
    }

    /// The value written under `s`; an error message naming `s` when no value is.
    pub fn from_wire(s: &str) -> (r: Result<VehicleCategory, String>)
        ensures
            match r {
                Ok(v) => VehicleCategory::from_wire_name(s@) == Some(v),
                Err(m) => VehicleCategory::from_wire_name(s@) is None && m@ == "Invalid VehicleCategory: "@ + s@,
            },
    {
        if str_eq(s, VehicleCategory::Car.as_str()) {
            return Ok(VehicleCategory::Car);
        }
        if str_eq(s, VehicleCategory::Van.as_str()) {
            return Ok(VehicleCategory::Van);
        }
        if str_eq(s, VehicleCategory::Truck.as_str()) {
            return Ok(VehicleCategory::Truck);
        }
        if str_eq(s, VehicleCategory::Semitrailer.as_str()) {
            return Ok(VehicleCategory::Semitrailer);
        }
        if str_eq(s, VehicleCategory::Bus.as_str()) {
            return Ok(VehicleCategory::Bus);
        }
        if str_eq(s, VehicleCategory::Motorbike.as_str()) {
            return Ok(VehicleCategory::Motorbike);
        }
        if str_eq(s, VehicleCategory::Bicycle.as_str()) {
            return Ok(VehicleCategory::Bicycle);
        }
        if str_eq(s, VehicleCategory::Train.as_str()) {
            return Ok(VehicleCategory::Train);
        }
        if str_eq(s, VehicleCategory::Tram.as_str()) {
            return Ok(VehicleCategory::Tram);
        }
        if str_eq(s, VehicleCategory::Trailer.as_str()) {
            return Ok(VehicleCategory::Trailer);
        }
        let prefix: String = "Invalid VehicleCategory: ".to_owned();
        Err(prefix.concat(s))
    }

    /// Every value, in declaration order.
    pub fn all() -> (r: Vec<VehicleCategory>)
        ensures
            r@ == VehicleCategory::all_values(),
    {
        let r = vec![VehicleCategory::Car, VehicleCategory::Van, VehicleCategory::Truck, VehicleCategory::Semitrailer, VehicleCategory::Bus, VehicleCategory::Motorbike, VehicleCategory::Bicycle, VehicleCategory::Train, VehicleCategory::Tram, VehicleCategory::Trailer];
        assert(r@ =~= VehicleCategory::all_values());
        r
    }

    /// The written names of the values, as documents write them: each value's name, and
    /// the value that each name is read as.
    pub proof fn lemma_written_names()
        ensures
            VehicleCategory::Car.wire_name() == "car"@,
            VehicleCategory::from_wire_name("car"@) == Some(VehicleCategory::Car),
            VehicleCategory::Van.wire_name() == "van"@,
            VehicleCategory::from_wire_name("van"@) == Some(VehicleCategory::Van),
            VehicleCategory::Truck.wire_name() == "truck"@,
            VehicleCategory::from_wire_name("truck"@) == Some(VehicleCategory::Truck),
            VehicleCategory::Semitrailer.wire_name() == "semitrailer"@,
            VehicleCategory::from_wire_name("semitrailer"@) == Some(VehicleCategory::Semitrailer),
            VehicleCategory::Bus.wire_name() == "bus"@,
            VehicleCategory::from_wire_name("bus"@) == Some(VehicleCategory::Bus),
            VehicleCategory::Motorbike.wire_name() == "motorbike"@,
            VehicleCategory::from_wire_name("motorbike"@) == Some(VehicleCategory::Motorbike),
            VehicleCategory::Bicycle.wire_name() == "bicycle"@,
            VehicleCategory::from_wire_name("bicycle"@) == Some(VehicleCategory::Bicycle),
            VehicleCategory::Train.wire_name() == "train"@,
            VehicleCategory::from_wire_name("train"@) == Some(VehicleCategory::Train),
            VehicleCategory::Tram.wire_name() == "tram"@,
            VehicleCategory::from_wire_name("tram"@) == Some(VehicleCategory::Tram),
            VehicleCategory::Trailer.wire_name() == "trailer"@,
            VehicleCategory::from_wire_name("trailer"@) == Some(VehicleCategory::Trailer),
    {
        reveal_strlit("car");
        assert("car"@ =~= VehicleCategory::Car.wire_name());
        VehicleCategory::lemma_wire_name_round_trip(VehicleCategory::Car);
        reveal_strlit("van");
        assert("van"@ =~= VehicleCategory::Van.wire_name());
        VehicleCategory::lemma_wire_name_round_trip(VehicleCategory::Van);
        reveal_strlit("truck");
        assert("truck"@ =~= VehicleCategory::Truck.wire_name());
        VehicleCategory::lemma_wire_name_round_trip(VehicleCategory::Truck);
        reveal_strlit("semitrailer");
        assert("semitrailer"@ =~= VehicleCategory::Semitrailer.wire_name());
        VehicleCategory::lemma_wire_name_round_trip(VehicleCategory::Semitrailer);
        reveal_strlit("bus");
        assert("bus"@ =~= VehicleCategory::Bus.wire_name());
        VehicleCategory::lemma_wire_name_round_trip(VehicleCategory::Bus);
        reveal_strlit("motorbike");
        assert("motorbike"@ =~= VehicleCategory::Motorbike.wire_name());
        VehicleCategory::lemma_wire_name_round_trip(VehicleCategory::Motorbike);
        reveal_strlit("bicycle");
        assert("bicycle"@ =~= VehicleCategory::Bicycle.wire_name());
        VehicleCategory::lemma_wire_name_round_trip(VehicleCategory::Bicycle);
        reveal_strlit("train");
        assert("train"@ =~= VehicleCategory::Train.wire_name());
        VehicleCategory::lemma_wire_name_round_trip(VehicleCategory::Train);
        reveal_strlit("tram");
        assert("tram"@ =~= VehicleCategory::Tram.wire_name());
        VehicleCategory::lemma_wire_name_round_trip(VehicleCategory::Tram);
        reveal_strlit("trailer");
        assert("trailer"@ =~= VehicleCategory::Trailer.wire_name());
        VehicleCategory::lemma_wire_name_round_trip(VehicleCategory::Trailer);
    }

    /// A text that parses to a value is that value's name.
    pub proof fn lemma_parsed_text_is_wire_name(s: Seq<char>)
        ensures
            VehicleCategory::from_wire_name(s) matches Some(v) ==> v.wire_name() == s,
    {
    }

    /// The name of a value parses back to that value.
    pub proof fn lemma_wire_name_round_trip(v: VehicleCategory)
        ensures
            VehicleCategory::from_wire_name(v.wire_name()) == Some(v),
    {
        match v {
            VehicleCategory::Car => {
            },
            VehicleCategory::Van => {
                assert(VehicleCategory::Van.wire_name()[0] != VehicleCategory::Car.wire_name()[0]);
            },
            VehicleCategory::Truck => {
                assert(VehicleCategory::Truck.wire_name().len() != VehicleCategory::Car.wire_name().len());
                assert(VehicleCategory::Truck.wire_name().len() != VehicleCategory::Van.wire_name().len());
            },
            VehicleCategory::Semitrailer => {
                assert(VehicleCategory::Semitrailer.wire_name().len() != VehicleCategory::Car.wire_name().len());
                assert(VehicleCategory::Semitrailer.wire_name().len() != VehicleCategory::Van.wire_name().len());
                assert(VehicleCategory::Semitrailer.wire_name().len() != VehicleCategory::Truck.wire_name().len());
            },
            VehicleCategory::Bus => {
                assert(VehicleCategory::Bus.wire_name()[0] != VehicleCategory::Car.wire_name()[0]);
                assert(VehicleCategory::Bus.wire_name()[0] != VehicleCategory::Van.wire_name()[0]);
                assert(VehicleCategory::Bus.wire_name().len() != VehicleCategory::Truck.wire_name().len());
                assert(VehicleCategory::Bus.wire_name().len() != VehicleCategory::Semitrailer.wire_name().len());
            },
            VehicleCategory::Motorbike => {
                assert(VehicleCategory::Motorbike.wire_name().len() != VehicleCategory::Car.wire_name().len());
                assert(VehicleCategory::Motorbike.wire_name().len() != VehicleCategory::Van.wire_name().len());
                assert(VehicleCategory::Motorbike.wire_name().len() != VehicleCategory::Truck.wire_name().len());
                assert(VehicleCategory::Motorbike.wire_name().len() != VehicleCategory::Semitrailer.wire_name().len());
                assert(VehicleCategory::Motorbike.wire_name().len() != VehicleCategory::Bus.wire_name().len());
            },
            VehicleCategory::Bicycle => {
                assert(VehicleCategory::Bicycle.wire_name().len() != VehicleCategory::Car.wire_name().len());
                assert(VehicleCategory::Bicycle.wire_name().len() != VehicleCategory::Van.wire_name().len());
                assert(VehicleCategory::Bicycle.wire_name().len() != VehicleCategory::Truck.wire_name().len());
                assert(VehicleCategory::Bicycle.wire_name().len() != VehicleCategory::Semitrailer.wire_name().len());
                assert(VehicleCategory::Bicycle.wire_name().len() != VehicleCategory::Bus.wire_name().len());
                assert(VehicleCategory::Bicycle.wire_name().len() != VehicleCategory::Motorbike.wire_name().len());
            },
            VehicleCategory::Train => {
                assert(VehicleCategory::Train.wire_name().len() != VehicleCategory::Car.wire_name().len());
                assert(VehicleCategory::Train.wire_name().len() != VehicleCategory::Van.wire_name().len());
                assert(VehicleCategory::Train.wire_name()[2] != VehicleCategory::Truck.wire_name()[2]);
                assert(VehicleCategory::Train.wire_name().len() != VehicleCategory::Semitrailer.wire_name().len());
                assert(VehicleCategory::Train.wire_name().len() != VehicleCategory::Bus.wire_name().len());
                assert(VehicleCategory::Train.wire_name().len() != VehicleCategory::Motorbike.wire_name().len());
                assert(VehicleCategory::Train.wire_name().len() != VehicleCategory::Bicycle.wire_name().len());
            },
            VehicleCategory::Tram => {
                assert(VehicleCategory::Tram.wire_name().len() != VehicleCategory::Car.wire_name().len());
                assert(VehicleCategory::Tram.wire_name().len() != VehicleCategory::Van.wire_name().len());
                assert(VehicleCategory::Tram.wire_name().len() != VehicleCategory::Truck.wire_name().len());
                assert(VehicleCategory::Tram.wire_name().len() != VehicleCategory::Semitrailer.wire_name().len());
                assert(VehicleCategory::Tram.wire_name().len() != VehicleCategory::Bus.wire_name().len());
                assert(VehicleCategory::Tram.wire_name().len() != VehicleCategory::Motorbike.wire_name().len());
                assert(VehicleCategory::Tram.wire_name().len() != VehicleCategory::Bicycle.wire_name().len());
                assert(VehicleCategory::Tram.wire_name().len() != VehicleCategory::Train.wire_name().len());
            },
            VehicleCategory::Trailer => {
                assert(VehicleCategory::Trailer.wire_name().len() != VehicleCategory::Car.wire_name().len());
                assert(VehicleCategory::Trailer.wire_name().len() != VehicleCategory::Van.wire_name().len());
                assert(VehicleCategory::Trailer.wire_name().len() != VehicleCategory::Truck.wire_name().len());
                assert(VehicleCategory::Trailer.wire_name().len() != VehicleCategory::Semitrailer.wire_name().len());
                assert(VehicleCategory::Trailer.wire_name().len() != VehicleCategory::Bus.wire_name().len());
                assert(VehicleCategory::Trailer.wire_name().len() != VehicleCategory::Motorbike.wire_name().len());
                assert(VehicleCategory::Trailer.wire_name()[0] != VehicleCategory::Bicycle.wire_name()[0]);
                assert(VehicleCategory::Trailer.wire_name().len() != VehicleCategory::Train.wire_name().len());
                assert(VehicleCategory::Trailer.wire_name().len() != VehicleCategory::Tram.wire_name().len());
            },
        }
    }

}

impl Duplicate for VehicleCategory {
    open spec fn same(&self, other: &Self) -> bool {
        *self == *other
    }

    fn copied(&self) -> (r: VehicleCategory) {
        *self
    }
}

impl ParamValue for VehicleCategory {
    open spec fn accepts(s: Seq<char>) -> bool {
        VehicleCategory::from_wire_name(s) is Some
    }

    open spec fn denotes(s: Seq<char>, v: VehicleCategory) -> bool {
        VehicleCategory::from_wire_name(s) == Some(v)
    }

    open spec fn type_label() -> Seq<char> {
        "VehicleCategory"@
    }

    fn parse_text(s: &str) -> (r: Option<VehicleCategory>) {
        match VehicleCategory::from_wire(s) {
            Ok(v) => Some(v),
            Err(_) => None,
        }
    }

    fn kind_name() -> (r: String) {
        "VehicleCategory".to_owned()
    }

    proof fn lemma_same_is_equal(a: &Self, b: &Self) {
    }
}

impl std::str::FromStr for VehicleCategory {
    type Err = String;

    fn from_str(s: &str) -> Result<VehicleCategory, String> {
        VehicleCategory::from_wire(s)
    }
}

/// Pedestrian category enumeration
#[derive(Debug, Clone, Copy, PartialEq, Eq, Hash)]
pub enum PedestrianCategory {
    Pedestrian,
    Wheelchair,
    Animal,
}

impl PedestrianCategory {
    /// The name under which this value is written.
    pub open spec fn wire_name(self) -> Seq<char> {
        match self {
            PedestrianCategory::Pedestrian => seq!['p', 'e', 'd', 'e', 's', 't', 'r', 'i', 'a', 'n'],
            PedestrianCategory::Wheelchair => seq!['w', 'h', 'e', 'e', 'l', 'c', 'h', 'a', 'i', 'r'],
            PedestrianCategory::Animal => seq!['a', 'n', 'i', 'm', 'a', 'l'],
        }
    }

    /// The value written under `s`, if any.
    pub open spec fn from_wire_name(s: Seq<char>) -> Option<PedestrianCategory> {
        if s == PedestrianCategory::Pedestrian.wire_name() {
            Some(PedestrianCategory::Pedestrian)
        } else if s == PedestrianCategory::Wheelchair.wire_name() {
            Some(PedestrianCategory::Wheelchair)
        } else if s == PedestrianCategory::Animal.wire_name() {
            Some(PedestrianCategory::Animal)
        } else {
            None
        }
    }

    /// Every value, in declaration order.
    pub open spec fn all_values() -> Seq<PedestrianCategory> {
        seq![PedestrianCategory::Pedestrian, PedestrianCategory::Wheelchair, PedestrianCategory::Animal]
    }

    /// The name under which this value is written.
    pub fn as_str(&self) -> (r: &'static str)
        ensures
            r@ == self.wire_name(),
    {
        match self {
            PedestrianCategory::Pedestrian => {
                proof {
                    reveal_strlit("pedestrian");
                }
                "pedestrian"
            },
            PedestrianCategory::Wheelchair => {
                proof {
                    reveal_strlit("wheelchair");
                }
                "wheelchair"
            },
            PedestrianCategory::Animal => {
                proof {
                    reveal_strlit("animal");
                }
                "animal"
            },
        }
    }

    /// The name under which this value is written, as an owned string.
    pub fn to_string(&self) -> (r: String)
        ensures
            r@ == self.wire_name(),
    {
        self.as_str().to_owned()
    }

    /// The value written under `s`; an error message naming `s` when no value is.
    pub fn from_wire(s: &str) -> (r: Result<PedestrianCategory, String>)
        ensures
            match r {
                Ok(v) => PedestrianCategory::from_wire_name(s@) == Some(v),
                Err(m) => PedestrianCategory::from_wire_name(s@) is None && m@ == "Invalid PedestrianCategory: "@ + s@,
            },
    {
        if str_eq(s, PedestrianCategory::Pedestrian.as_str()) {
            return Ok(PedestrianCategory::Pedestrian);
        }
        if str_eq(s, PedestrianCategory::Wheelchair.as_str()) {
            return Ok(PedestrianCategory::Wheelchair);
        }
        if str_eq(s, PedestrianCategory::Animal.as_str()) {
            return Ok(PedestrianCategory::Animal);
        }
        let prefix: String = "Invalid PedestrianCategory: ".to_owned();
        Err(prefix.concat(s))
    }

    /// Every value, in declaration order.
    pub fn all() -> (r: Vec<PedestrianCategory>)
        ensures
            r@ == PedestrianCategory::all_values(),
    {
        let r = vec![PedestrianCategory::Pedestrian, PedestrianCategory::Wheelchair, PedestrianCategory::Animal];
        assert(r@ =~= PedestrianCategory::all_values());
        r
    }

    /// The written names of the values, as documents write them: each value's name, and
    /// the value that each name is read as.
    pub proof fn lemma_written_names()
        ensures
            PedestrianCategory::Pedestrian.wire_name() == "pedestrian"@,
            PedestrianCategory::from_wire_name("pedestrian"@) == Some(PedestrianCategory::Pedestrian),
            PedestrianCategory::Wheelchair.wire_name() == "wheelchair"@,
            PedestrianCategory::from_wire_name("wheelchair"@) == Some(PedestrianCategory::Wheelchair),
            PedestrianCategory::Animal.wire_name() == "animal"@,
            PedestrianCategory::from_wire_name("animal"@) == Some(PedestrianCategory::Animal),
    {
        reveal_strlit("pedestrian");
        assert("pedestrian"@ =~= PedestrianCategory::Pedestrian.wire_name());
        PedestrianCategory::lemma_wire_name_round_trip(PedestrianCategory::Pedestrian);
        reveal_strlit("wheelchair");
        assert("wheelchair"@ =~= PedestrianCategory::Wheelchair.wire_name());
        PedestrianCategory::lemma_wire_name_round_trip(PedestrianCategory::Wheelchair);
        reveal_strlit("animal");
        assert("animal"@ =~= PedestrianCategory::Animal.wire_name());
        PedestrianCategory::lemma_wire_name_round_trip(PedestrianCategory::Animal);
    }

    /// A text that parses to a value is that value's name.
    pub proof fn lemma_parsed_text_is_wire_name(s: Seq<char>)
        ensures
            PedestrianCategory::from_wire_name(s) matches Some(v) ==> v.wire_name() == s,
    {
    }

    /// The name of a value parses back to that value.
    pub proof fn lemma_wire_name_round_trip(v: PedestrianCategory)
        ensures
            PedestrianCategory::from_wire_name(v.wire_name()) == Some(v),
    {
        match v {
            PedestrianCategory::Pedestrian => {
            },
            PedestrianCategory::Wheelchair => {
                assert(PedestrianCategory::Wheelchair.wire_name()[0] != PedestrianCategory::Pedestrian.wire_name()[0]);
            },
            PedestrianCategory::Animal => {
                assert(PedestrianCategory::Animal.wire_name().len() != PedestrianCategory::Pedestrian.wire_name().len());
                assert(PedestrianCategory::Animal.wire_name().len() != PedestrianCategory::Wheelchair.wire_name().len());
            },
        }
    }

}

impl Duplicate for PedestrianCategory {
    open spec fn same(&self, other: &Self) -> bool {
        *self == *other
    }

    fn copied(&self) -> (r: PedestrianCategory) {
        *self
    }
}

impl ParamValue for PedestrianCategory {
    open spec fn accepts(s: Seq<char>) -> bool {
        PedestrianCategory::from_wire_name(s) is Some
    }

    open spec fn denotes(s: Seq<char>, v: PedestrianCategory) -> bool {
        PedestrianCategory::from_wire_name(s) == Some(v)
    }

    open spec fn type_label() -> Seq<char> {
        "PedestrianCategory"@
    }

    fn parse_text(s: &str) -> (r: Option<PedestrianCategory>) {
        match PedestrianCategory::from_wire(s) {
            Ok(v) => Some(v),
            Err(_) => None,
        }
    }

    fn kind_name() -> (r: String) {
        "PedestrianCategory".to_owned()
    }

    proof fn lemma_same_is_equal(a: &Self, b: &Self) {
    }
}

impl std::str::FromStr for PedestrianCategory {
    type Err = String;

    fn from_str(s: &str) -> Result<PedestrianCategory, String> {
        PedestrianCategory::from_wire(s)
    }
}

/// Object type enumeration
#[derive(Debug, Clone, Copy, PartialEq, Eq, Hash)]
pub enum ObjectType {
    Vehicle,
    Pedestrian,
    MiscellaneousObject,
    External,
}

impl ObjectType {
    /// The name under which this value is written.
    pub open spec fn wire_name(self) -> Seq<char> {
        match self {
            ObjectType::Vehicle => seq!['v', 'e', 'h', 'i', 'c', 'l', 'e'],
            ObjectType::Pedestrian => seq!['p', 'e', 'd', 'e', 's', 't', 'r', 'i', 'a', 'n'],
            ObjectType::MiscellaneousObject => seq!['m', 'i', 's', 'c', 'e', 'l', 'l', 'a', 'n', 'e', 'o', 'u', 's'],
            ObjectType::External => seq!['e', 'x', 't', 'e', 'r', 'n', 'a', 'l'],
        }
    }

    /// The value written under `s`, if any.
    pub open spec fn from_wire_name(s: Seq<char>) -> Option<ObjectType> {
        if s == ObjectType::Vehicle.wire_name() {
            Some(ObjectType::Vehicle)
        } else if s == ObjectType::Pedestrian.wire_name() {
            Some(ObjectType::Pedestrian)
        } else if s == ObjectType::MiscellaneousObject.wire_name() {
            Some(ObjectType::MiscellaneousObject)
        } else if s == ObjectType::External.wire_name() {
            Some(ObjectType::External)
        } else {
            None
        }
    }

    /// Every value, in declaration order.
    pub open spec fn all_values() -> Seq<ObjectType> {
        seq![ObjectType::Vehicle, ObjectType::Pedestrian, ObjectType::MiscellaneousObject, ObjectType::External]
    }

    /// The name under which this value is written.
    pub fn as_str(&self) -> (r: &'static str)
        ensures
            r@ == self.wire_name(),
    {
        match self {
            ObjectType::Vehicle => {
                proof {
                    reveal_strlit("vehicle");
                }
                "vehicle"
            },
            ObjectType::Pedestrian => {
                proof {
                    reveal_strlit("pedestrian");
                }
                "pedestrian"
            },
            ObjectType::MiscellaneousObject => {
                proof {
                    reveal_strlit("miscellaneous");
                }
                "miscellaneous"
            },
            ObjectType::External => {
                proof {
                    reveal_strlit("external");
                }
                "external"
            },
        }
    }

    /// The name under which this value is written, as an owned string.
    pub fn to_string(&self) -> (r: String)
        ensures
            r@ == self.wire_name(),
    {
        self.as_str().to_owned()
    }

    /// The value written under `s`; an error message naming `s` when no value is.
    pub fn from_wire(s: &str) -> (r: Result<ObjectType, String>)
        ensures
            match r {
                Ok(v) => ObjectType::from_wire_name(s@) == Some(v),
                Err(m) => ObjectType::from_wire_name(s@) is None && m@ == "Invalid ObjectType: "@ + s@,
            },
    {
        if str_eq(s, ObjectType::Vehicle.as_str()) {
            return Ok(ObjectType::Vehicle);
        }
        if str_eq(s, ObjectType::Pedestrian.as_str()) {
            return Ok(ObjectType::Pedestrian);
        }
        if str_eq(s, ObjectType::MiscellaneousObject.as_str()) {
            return Ok(ObjectType::MiscellaneousObject);
        }
        if str_eq(s, ObjectType::External.as_str()) {
            return Ok(ObjectType::External);
        }
        let prefix: String = "Invalid ObjectType: ".to_owned();
        Err(prefix.concat(s))
    }

    /// Every value, in declaration order.
    pub fn all() -> (r: Vec<ObjectType>)
        ensures
            r@ == ObjectType::all_values(),
    {
        let r = vec![ObjectType::Vehicle, ObjectType::Pedestrian, ObjectType::MiscellaneousObject, ObjectType::External];
        assert(r@ =~= ObjectType::all_values());
        r
    }

    /// The written names of the values, as documents write them: each value's name, and
    /// the value that each name is read as.
    pub proof fn lemma_written_names()
        ensures
            ObjectType::Vehicle.wire_name() == "vehicle"@,
            ObjectType::from_wire_name("vehicle"@) == Some(ObjectType::Vehicle),
            ObjectType::Pedestrian.wire_name() == "pedestrian"@,
            ObjectType::from_wire_name("pedestrian"@) == Some(ObjectType::Pedestrian),
            ObjectType::MiscellaneousObject.wire_name() == "miscellaneous"@,
            ObjectType::from_wire_name("miscellaneous"@) == Some(ObjectType::MiscellaneousObject),
            ObjectType::External.wire_name() == "external"@,
            ObjectType::from_wire_name("external"@) == Some(ObjectType::External),
    {
        reveal_strlit("vehicle");
        assert("vehicle"@ =~= ObjectType::Vehicle.wire_name());
        ObjectType::lemma_wire_name_round_trip(ObjectType::Vehicle);
        reveal_strlit("pedestrian");
        assert("pedestrian"@ =~= ObjectType::Pedestrian.wire_name());
        ObjectType::lemma_wire_name_round_trip(ObjectType::Pedestrian);
        reveal_strlit("miscellaneous");
        assert("miscellaneous"@ =~= ObjectType::MiscellaneousObject.wire_name());
        ObjectType::lemma_wire_name_round_trip(ObjectType::MiscellaneousObject);
        reveal_strlit("external");
        assert("external"@ =~= ObjectType::External.wire_name());
        ObjectType::lemma_wire_name_round_trip(ObjectType::External);
    }

    /// A text that parses to a value is that value's name.
    pub proof fn lemma_parsed_text_is_wire_name(s: Seq<char>)
        ensures
            ObjectType::from_wire_name(s) matches Some(v) ==> v.wire_name() == s,
    {
    }

    /// The name of a value parses back to that value.
    pub proof fn lemma_wire_name_round_trip(v: ObjectType)
        ensures
            ObjectType::from_wire_name(v.wire_name()) == Some(v),
    {
        match v {
            ObjectType::Vehicle => {
            },
            ObjectType::Pedestrian => {
                assert(ObjectType::Pedestrian.wire_name().len() != ObjectType::Vehicle.wire_name().len());
            },
            ObjectType::MiscellaneousObject => {
                assert(ObjectType::MiscellaneousObject.wire_name().len() != ObjectType::Vehicle.wire_name().len());
                assert(ObjectType::MiscellaneousObject.wire_name().len() != ObjectType::Pedestrian.wire_name().len());
            },
            ObjectType::External => {
                assert(ObjectType::External.wire_name().len() != ObjectType::Vehicle.wire_name().len());
                assert(ObjectType::External.wire_name().len() != ObjectType::Pedestrian.wire_name().len());
                assert(ObjectType::External.wire_name().len() != ObjectType::MiscellaneousObject.wire_name().len());
            },
        }
    }

}

impl Duplicate for ObjectType {
    open spec fn same(&self, other: &Self) -> bool {
        *self == *other
    }

    fn copied(&self) -> (r: ObjectType) {
        *self
    }
}

impl ParamValue for ObjectType {
    open spec fn accepts(s: Seq<char>) -> bool {
        ObjectType::from_wire_name(s) is Some
    }

    open spec fn denotes(s: Seq<char>, v: ObjectType) -> bool {
        ObjectType::from_wire_name(s) == Some(v)
    }

    open spec fn type_label() -> Seq<char> {
        "ObjectType"@
    }

    fn parse_text(s: &str) -> (r: Option<ObjectType>) {
        match ObjectType::from_wire(s) {
            Ok(v) => Some(v),
            Err(_) => None,
        }
    }

    fn kind_name() -> (r: String) {
        "ObjectType".to_owned()
    }

    proof fn lemma_same_is_equal(a: &Self, b: &Self) {
    }
}

impl std::str::FromStr for ObjectType {
    type Err = String;

    fn from_str(s: &str) -> Result<ObjectType, String> {
        ObjectType::from_wire(s)
    }
}

/// Rule enumeration for conditions
#[derive(Debug, Clone, Copy, PartialEq, Eq, Hash)]
pub enum Rule {
    EqualTo,
    GreaterThan,
    LessThan,
    GreaterOrEqual,
    LessOrEqual,
    NotEqualTo,
}

impl Rule {
    /// The name under which this value is written.
    pub open spec fn wire_name(self) -> Seq<char> {
        match self {
            Rule::EqualTo => seq!['e', 'q', 'u', 'a', 'l', 'T', 'o'],
            Rule::GreaterThan => seq!['g', 'r', 'e', 'a', 't', 'e', 'r', 'T', 'h', 'a', 'n'],
            Rule::LessThan => seq!['l', 'e', 's', 's', 'T', 'h', 'a', 'n'],
            Rule::GreaterOrEqual => seq!['g', 'r', 'e', 'a', 't', 'e', 'r', 'O', 'r', 'E', 'q', 'u', 'a', 'l'],
            Rule::LessOrEqual => seq!['l', 'e', 's', 's', 'O', 'r', 'E', 'q', 'u', 'a', 'l'],
            Rule::NotEqualTo => seq!['n', 'o', 't', 'E', 'q', 'u', 'a', 'l', 'T', 'o'],
        }
    }

    /// The value written under `s`, if any.
    pub open spec fn from_wire_name(s: Seq<char>) -> Option<Rule> {
        if s == Rule::EqualTo.wire_name() {
            Some(Rule::EqualTo)
        } else if s == Rule::GreaterThan.wire_name() {
            Some(Rule::GreaterThan)
        } else if s == Rule::LessThan.wire_name() {
            Some(Rule::LessThan)
        } else if s == Rule::GreaterOrEqual.wire_name() {
            Some(Rule::GreaterOrEqual)
        } else if s == Rule::LessOrEqual.wire_name() {
            Some(Rule::LessOrEqual)
        } else if s == Rule::NotEqualTo.wire_name() {
            Some(Rule::NotEqualTo)
        } else {
            None
        }
    }

    /// Every value, in declaration order.
    pub open spec fn all_values() -> Seq<Rule> {
        seq![Rule::EqualTo, Rule::GreaterThan, Rule::LessThan, Rule::GreaterOrEqual, Rule::LessOrEqual, Rule::NotEqualTo]
    }

    /// The name under which this value is written.
    pub fn as_str(&self) -> (r: &'static str)
        ensures
            r@ == self.wire_name(),
    {
        match self {
            Rule::EqualTo => {
                proof {
                    reveal_strlit("equalTo");
                }
                "equalTo"
            },
            Rule::GreaterThan => {
                proof {
                    reveal_strlit("greaterThan");
                }
                "greaterThan"
            },
            Rule::LessThan => {
                proof {
                    reveal_strlit("lessThan");
                }
                "lessThan"
            },
            Rule::GreaterOrEqual => {
                proof {
                    reveal_strlit("greaterOrEqual");
                }
                "greaterOrEqual"
            },
            Rule::LessOrEqual => {
                proof {
                    reveal_strlit("lessOrEqual");
                }
                "lessOrEqual"
            },
            Rule::NotEqualTo => {
                proof {
                    reveal_strlit("notEqualTo");
                }
                "notEqualTo"
            },
        }
    }

    /// The name under which this value is written, as an owned string.
    pub fn to_string(&self) -> (r: String)
        ensures
            r@ == self.wire_name(),
    {
        self.as_str().to_owned()
    }

    /// The value written under `s`; an error message naming `s` when no value is.
    pub fn from_wire(s: &str) -> (r: Result<Rule, String>)
        ensures
            match r {
                Ok(v) => Rule::from_wire_name(s@) == Some(v),
                Err(m) => Rule::from_wire_name(s@) is None && m@ == "Invalid Rule: "@ + s@,
            },
    {
        if str_eq(s, Rule::EqualTo.as_str()) {
            return Ok(Rule::EqualTo);
        }
        if str_eq(s, Rule::GreaterThan.as_str()) {
            return Ok(Rule::GreaterThan);
        }
        if str_eq(s, Rule::LessThan.as_str()) {
            return Ok(Rule::LessThan);
        }
        if str_eq(s, Rule::GreaterOrEqual.as_str()) {
            return Ok(Rule::GreaterOrEqual);
        }
        if str_eq(s, Rule::LessOrEqual.as_str()) {
            return Ok(Rule::LessOrEqual);
        }
        if str_eq(s, Rule::NotEqualTo.as_str()) {
            return Ok(Rule::NotEqualTo);
        }
        let prefix: String = "Invalid Rule: ".to_owned();
        Err(prefix.concat(s))
    }

    /// Every value, in declaration order.
    pub fn all() -> (r: Vec<Rule>)
        ensures
            r@ == Rule::all_values(),
    {
        let r = vec![Rule::EqualTo, Rule::GreaterThan, Rule::LessThan, Rule::GreaterOrEqual, Rule::LessOrEqual, Rule::NotEqualTo];
        assert(r@ =~= Rule::all_values());
        r
    }

    /// The written names of the values, as documents write them: each value's name, and
    /// the value that each name is read as.
    pub proof fn lemma_written_names()
        ensures
            Rule::EqualTo.wire_name() == "equalTo"@,
            Rule::from_wire_name("equalTo"@) == Some(Rule::EqualTo),
            Rule::GreaterThan.wire_name() == "greaterThan"@,
            Rule::from_wire_name("greaterThan"@) == Some(Rule::GreaterThan),
            Rule::LessThan.wire_name() == "lessThan"@,
            Rule::from_wire_name("lessThan"@) == Some(Rule::LessThan),
            Rule::GreaterOrEqual.wire_name() == "greaterOrEqual"@,
            Rule::from_wire_name("greaterOrEqual"@) == Some(Rule::GreaterOrEqual),
            Rule::LessOrEqual.wire_name() == "lessOrEqual"@,
            Rule::from_wire_name("lessOrEqual"@) == Some(Rule::LessOrEqual),
            Rule::NotEqualTo.wire_name() == "notEqualTo"@,
            Rule::from_wire_name("notEqualTo"@) == Some(Rule::NotEqualTo),
    {
        reveal_strlit("equalTo");
        assert("equalTo"@ =~= Rule::EqualTo.wire_name());
        Rule::lemma_wire_name_round_trip(Rule::EqualTo);
        reveal_strlit("greaterThan");
        assert("greaterThan"@ =~= Rule::GreaterThan.wire_name());
        Rule::lemma_wire_name_round_trip(Rule::GreaterThan);
        reveal_strlit("lessThan");
        assert("lessThan"@ =~= Rule::LessThan.wire_name());
        Rule::lemma_wire_name_round_trip(Rule::LessThan);
        reveal_strlit("greaterOrEqual");
        assert("greaterOrEqual"@ =~= Rule::GreaterOrEqual.wire_name());
        Rule::lemma_wire_name_round_trip(Rule::GreaterOrEqual);
        reveal_strlit("lessOrEqual");
        assert("lessOrEqual"@ =~= Rule::LessOrEqual.wire_name());
        Rule::lemma_wire_name_round_trip(Rule::LessOrEqual);
        reveal_strlit("notEqualTo");
        assert("notEqualTo"@ =~= Rule::NotEqualTo.wire_name());
        Rule::lemma_wire_name_round_trip(Rule::NotEqualTo);
    }

    /// A text that parses to a value is that value's name.
    pub proof fn lemma_parsed_text_is_wire_name(s: Seq<char>)
        ensures
            Rule::from_wire_name(s) matches Some(v) ==> v.wire_name() == s,
    {
    }

    /// The name of a value parses back to that value.
    pub proof fn lemma_wire_name_round_trip(v: Rule)
        ensures
            Rule::from_wire_name(v.wire_name()) == Some(v),
    {
        match v {
            Rule::EqualTo => {
            },
            Rule::GreaterThan => {
                assert(Rule::GreaterThan.wire_name().len() != Rule::EqualTo.wire_name().len());
            },
            Rule::LessThan => {
                assert(Rule::LessThan.wire_name().len() != Rule::EqualTo.wire_name().len());
                assert(Rule::LessThan.wire_name().len() != Rule::GreaterThan.wire_name().len());
            },
            Rule::GreaterOrEqual => {
                assert(Rule::GreaterOrEqual.wire_name().len() != Rule::EqualTo.wire_name().len());
                assert(Rule::GreaterOrEqual.wire_name().len() != Rule::GreaterThan.wire_name().len());
                assert(Rule::GreaterOrEqual.wire_name().len() != Rule::LessThan.wire_name().len());
            },
            Rule::LessOrEqual => {
                assert(Rule::LessOrEqual.wire_name().len() != Rule::EqualTo.wire_name().len());
                assert(Rule::LessOrEqual.wire_name()[0] != Rule::GreaterThan.wire_name()[0]);
                assert(Rule::LessOrEqual.wire_name().len() != Rule::LessThan.wire_name().len());
                assert(Rule::LessOrEqual.wire_name().len() != Rule::GreaterOrEqual.wire_name().len());
            },
            Rule::NotEqualTo => {
                assert(Rule::NotEqualTo.wire_name().len() != Rule::EqualTo.wire_name().len());
                assert(Rule::NotEqualTo.wire_name().len() != Rule::GreaterThan.wire_name().len());
                assert(Rule::NotEqualTo.wire_name().len() != Rule::LessThan.wire_name().len());
                assert(Rule::NotEqualTo.wire_name().len() != Rule::GreaterOrEqual.wire_name().len());
                assert(Rule::NotEqualTo.wire_name().len() != Rule::LessOrEqual.wire_name().len());
            },
        }
    }

}

impl Duplicate for Rule {
    open spec fn same(&self, other: &Self) -> bool {
        *self == *other
    }

    fn copied(&self) -> (r: Rule) {
        *self
    }
}

impl ParamValue for Rule {
    open spec fn accepts(s: Seq<char>) -> bool {
        Rule::from_wire_name(s) is Some
    }

    open spec fn denotes(s: Seq<char>, v: Rule) -> bool {
        Rule::from_wire_name(s) == Some(v)
    }

    open spec fn type_label() -> Seq<char> {
        "Rule"@
    }

    fn parse_text(s: &str) -> (r: Option<Rule>) {
        match Rule::from_wire(s) {
            Ok(v) => Some(v),
            Err(_) => None,
        }
    }

    fn kind_name() -> (r: String) {
        "Rule".to_owned()
    }

    proof fn lemma_same_is_equal(a: &Self, b: &Self) {
    }
}

impl std::str::FromStr for Rule {
    type Err = String;

    fn from_str(s: &str) -> Result<Rule, String> {
        Rule::from_wire(s)
    }
}

/// Condition edge enumeration
#[derive(Debug, Clone, Copy, PartialEq, Eq, Hash)]
pub enum ConditionEdge {
    NoEdge,
    Rising,
    Falling,
    RisingOrFalling,
}

impl ConditionEdge {
    /// The name under which this value is written.
    pub open spec fn wire_name(self) -> Seq<char> {
        match self {
            ConditionEdge::NoEdge => seq!['n', 'o', 'n', 'e'],
            ConditionEdge::Rising => seq!['r', 'i', 's', 'i', 'n', 'g'],
            ConditionEdge::Falling => seq!['f', 'a', 'l', 'l', 'i', 'n', 'g'],
            ConditionEdge::RisingOrFalling => seq!['r', 'i', 's', 'i', 'n', 'g', 'O', 'r', 'F', 'a', 'l', 'l', 'i', 'n', 'g'],
        }
    }

    /// The value written under `s`, if any.
    pub open spec fn from_wire_name(s: Seq<char>) -> Option<ConditionEdge> {
        if s == ConditionEdge::NoEdge.wire_name() {
            Some(ConditionEdge::NoEdge)
        } else if s == ConditionEdge::Rising.wire_name() {
            Some(ConditionEdge::Rising)
        } else if s == ConditionEdge::Falling.wire_name() {
            Some(ConditionEdge::Falling)
        } else if s == ConditionEdge::RisingOrFalling.wire_name() {
            Some(ConditionEdge::RisingOrFalling)
        } else {
            None
        }
    }

    /// Every value, in declaration order.
    pub open spec fn all_values() -> Seq<ConditionEdge> {
        seq![ConditionEdge::NoEdge, ConditionEdge::Rising, ConditionEdge::Falling, ConditionEdge::RisingOrFalling]
    }

    /// The name under which this value is written.
    pub fn as_str(&self) -> (r: &'static str)
        ensures
            r@ == self.wire_name(),
    {
        match self {
            ConditionEdge::NoEdge => {
                proof {
                    reveal_strlit("none");
                }
                "none"
            },
            ConditionEdge::Rising => {
                proof {
                    reveal_strlit("rising");
                }
                "rising"
            },
            ConditionEdge::Falling => {
                proof {
                    reveal_strlit("falling");
                }
                "falling"
            },
            ConditionEdge::RisingOrFalling => {
                proof {
                    reveal_strlit("risingOrFalling");
                }
                "risingOrFalling"
            },
        }
    }

    /// The name under which this value is written, as an owned string.
    pub fn to_string(&self) -> (r: String)
        ensures
            r@ == self.wire_name(),
    {
        self.as_str().to_owned()
    }

    /// The value written under `s`; an error message naming `s` when no value is.
    pub fn from_wire(s: &str) -> (r: Result<ConditionEdge, String>)
        ensures
            match r {
                Ok(v) => ConditionEdge::from_wire_name(s@) == Some(v),
                Err(m) => ConditionEdge::from_wire_name(s@) is None && m@ == "Invalid ConditionEdge: "@ + s@,
            },
    {
        if str_eq(s, ConditionEdge::NoEdge.as_str()) {
            return Ok(ConditionEdge::NoEdge);
        }
        if str_eq(s, ConditionEdge::Rising.as_str()) {
            return Ok(ConditionEdge::Rising);
        }
        if str_eq(s, ConditionEdge::Falling.as_str()) {
            return Ok(ConditionEdge::Falling);
        }
        if str_eq(s, ConditionEdge::RisingOrFalling.as_str()) {
            return Ok(ConditionEdge::RisingOrFalling);
        }
        let prefix: String = "Invalid ConditionEdge: ".to_owned();
        Err(prefix.concat(s))
    }

    /// Every value, in declaration order.
    pub fn all() -> (r: Vec<ConditionEdge>)
        ensures
            r@ == ConditionEdge::all_values(),
    {
        let r = vec![ConditionEdge::NoEdge, ConditionEdge::Rising, ConditionEdge::Falling, ConditionEdge::RisingOrFalling];
        assert(r@ =~= ConditionEdge::all_values());
        r
    }

    /// The written names of the values, as documents write them: each value's name, and
    /// the value that each name is read as.
    pub proof fn lemma_written_names()
        ensures
            ConditionEdge::NoEdge.wire_name() == "none"@,
            ConditionEdge::from_wire_name("none"@) == Some(ConditionEdge::NoEdge),
            ConditionEdge::Rising.wire_name() == "rising"@,
            ConditionEdge::from_wire_name("rising"@) == Some(ConditionEdge::Rising),
            ConditionEdge::Falling.wire_name() == "falling"@,
            ConditionEdge::from_wire_name("falling"@) == Some(ConditionEdge::Falling),
            ConditionEdge::RisingOrFalling.wire_name() == "risingOrFalling"@,
            ConditionEdge::from_wire_name("risingOrFalling"@) == Some(ConditionEdge::RisingOrFalling),
    {
        reveal_strlit("none");
        assert("none"@ =~= ConditionEdge::NoEdge.wire_name());
        ConditionEdge::lemma_wire_name_round_trip(ConditionEdge::NoEdge);
        reveal_strlit("rising");
        assert("rising"@ =~= ConditionEdge::Rising.wire_name());
        ConditionEdge::lemma_wire_name_round_trip(ConditionEdge::Rising);
        reveal_strlit("falling");
        assert("falling"@ =~= ConditionEdge::Falling.wire_name());
        ConditionEdge::lemma_wire_name_round_trip(ConditionEdge::Falling);
        reveal_strlit("risingOrFalling");
        assert("risingOrFalling"@ =~= ConditionEdge::RisingOrFalling.wire_name());
        ConditionEdge::lemma_wire_name_round_trip(ConditionEdge::RisingOrFalling);
    }

    /// A text that parses to a value is that value's name.
    pub proof fn lemma_parsed_text_is_wire_name(s: Seq<char>)
        ensures
            ConditionEdge::from_wire_name(s) matches Some(v) ==> v.wire_name() == s,
    {
    }

    /// The name of a value parses back to that value.
    pub proof fn lemma_wire_name_round_trip(v: ConditionEdge)
        ensures
            ConditionEdge::from_wire_name(v.wire_name()) == Some(v),
    {
        match v {
            ConditionEdge::NoEdge => {
            },
            ConditionEdge::Rising => {
                assert(ConditionEdge::Rising.wire_name().len() != ConditionEdge::NoEdge.wire_name().len());
            },
            ConditionEdge::Falling => {
                assert(ConditionEdge::Falling.wire_name().len() != ConditionEdge::NoEdge.wire_name().len());
                assert(ConditionEdge::Falling.wire_name().len() != ConditionEdge::Rising.wire_name().len());
            },
            ConditionEdge::RisingOrFalling => {
                assert(ConditionEdge::RisingOrFalling.wire_name().len() != ConditionEdge::NoEdge.wire_name().len());
                assert(ConditionEdge::RisingOrFalling.wire_name().len() != ConditionEdge::Rising.wire_name().len());
                assert(ConditionEdge::RisingOrFalling.wire_name().len() != ConditionEdge::Falling.wire_name().len());
            },
        }
    }

}

impl Duplicate for ConditionEdge {
    open spec fn same(&self, other: &Self) -> bool {
        *self == *other
    }

    fn copied(&self) -> (r: ConditionEdge) {
        *self
    }
}

impl ParamValue for ConditionEdge {
    open spec fn accepts(s: Seq<char>) -> bool {
        ConditionEdge::from_wire_name(s) is Some
    }

    open spec fn denotes(s: Seq<char>, v: ConditionEdge) -> bool {
        ConditionEdge::from_wire_name(s) == Some(v)
    }

    open spec fn type_label() -> Seq<char> {
        "ConditionEdge"@
    }

    fn parse_text(s: &str) -> (r: Option<ConditionEdge>) {
        match ConditionEdge::from_wire(s) {
            Ok(v) => Some(v),
            Err(_) => None,
        }
    }

    fn kind_name() -> (r: String) {
        "ConditionEdge".to_owned()
    }

    proof fn lemma_same_is_equal(a: &Self, b: &Self) {
    }
}

impl std::str::FromStr for ConditionEdge {
    type Err = String;

    fn from_str(s: &str) -> Result<ConditionEdge, String> {
        ConditionEdge::from_wire(s)
    }
}

/// Triggering entities rule enumeration
#[derive(Debug, Clone, Copy, PartialEq, Eq, Hash)]
pub enum TriggeringEntitiesRule {
    All,
    Any,
}

impl TriggeringEntitiesRule {
    /// The name under which this value is written.
    pub open spec fn wire_name(self) -> Seq<char> {
        match self {
            TriggeringEntitiesRule::All => seq!['a', 'l', 'l'],
            TriggeringEntitiesRule::Any => seq!['a', 'n', 'y'],
        }
    }

    /// The value written under `s`, if any.
    pub open spec fn from_wire_name(s: Seq<char>) -> Option<TriggeringEntitiesRule> {
        if s == TriggeringEntitiesRule::All.wire_name() {
            Some(TriggeringEntitiesRule::All)
        } else if s == TriggeringEntitiesRule::Any.wire_name() {
            Some(TriggeringEntitiesRule::Any)
        } else {
            None
        }
    }

    /// Every value, in declaration order.
    pub open spec fn all_values() -> Seq<TriggeringEntitiesRule> {
        seq![TriggeringEntitiesRule::All, TriggeringEntitiesRule::Any]
    }

    /// The name under which this value is written.
    pub fn as_str(&self) -> (r: &'static str)
        ensures
            r@ == self.wire_name(),
    {
        match self {
            TriggeringEntitiesRule::All => {
                proof {
                    reveal_strlit("all");
                }
                "all"
            },
            TriggeringEntitiesRule::Any => {
                proof {
                    reveal_strlit("any");
                }
                "any"
            },
        }
    }

    /// The name under which this value is written, as an owned string.
    pub fn to_string(&self) -> (r: String)
        ensures
            r@ == self.wire_name(),
    {
        self.as_str().to_owned()
    }

    /// The value written under `s`; an error message naming `s` when no value is.
    pub fn from_wire(s: &str) -> (r: Result<TriggeringEntitiesRule, String>)
        ensures
            match r {
                Ok(v) => TriggeringEntitiesRule::from_wire_name(s@) == Some(v),
                Err(m) => TriggeringEntitiesRule::from_wire_name(s@) is None && m@ == "Invalid TriggeringEntitiesRule: "@ + s@,
            },
    {
        if str_eq(s, TriggeringEntitiesRule::All.as_str()) {
            return Ok(TriggeringEntitiesRule::All);
        }
        if str_eq(s, TriggeringEntitiesRule::Any.as_str()) {
            return Ok(TriggeringEntitiesRule::Any);
        }
        let prefix: String = "Invalid TriggeringEntitiesRule: ".to_owned();
        Err(prefix.concat(s))
    }

    /// Every value, in declaration order.
    pub fn all() -> (r: Vec<TriggeringEntitiesRule>)
        ensures
            r@ == TriggeringEntitiesRule::all_values(),
    {
        let r = vec![TriggeringEntitiesRule::All, TriggeringEntitiesRule::Any];
        assert(r@ =~= TriggeringEntitiesRule::all_values());
        r
    }

    /// The written names of the values, as documents write them: each value's name, and
    /// the value that each name is read as.
    pub proof fn lemma_written_names()
        ensures
            TriggeringEntitiesRule::All.wire_name() == "all"@,
            TriggeringEntitiesRule::from_wire_name("all"@) == Some(TriggeringEntitiesRule::All),
            TriggeringEntitiesRule::Any.wire_name() == "any"@,
            TriggeringEntitiesRule::from_wire_name("any"@) == Some(TriggeringEntitiesRule::Any),
    {
        reveal_strlit("all");
        assert("all"@ =~= TriggeringEntitiesRule::All.wire_name());
        TriggeringEntitiesRule::lemma_wire_name_round_trip(TriggeringEntitiesRule::All);
        reveal_strlit("any");
        assert("any"@ =~= TriggeringEntitiesRule::Any.wire_name());
        TriggeringEntitiesRule::lemma_wire_name_round_trip(TriggeringEntitiesRule::Any);
    }

    /// A text that parses to a value is that value's name.
    pub proof fn lemma_parsed_text_is_wire_name(s: Seq<char>)
        ensures
            TriggeringEntitiesRule::from_wire_name(s) matches Some(v) ==> v.wire_name() == s,
    {
    }

    /// The name of a value parses back to that value.
    pub proof fn lemma_wire_name_round_trip(v: TriggeringEntitiesRule)
        ensures
            TriggeringEntitiesRule::from_wire_name(v.wire_name()) == Some(v),
    {
        match v {
            TriggeringEntitiesRule::All => {
            },
            TriggeringEntitiesRule::Any => {
                assert(TriggeringEntitiesRule::Any.wire_name()[1] != TriggeringEntitiesRule::All.wire_name()[1]);
            },
        }
    }

}

impl Duplicate for TriggeringEntitiesRule {
    open spec fn same(&self, other: &Self) -> bool {
        *self == *other
    }

    fn copied(&self) -> (r: TriggeringEntitiesRule) {
        *self
    }
}

impl ParamValue for TriggeringEntitiesRule {
    open spec fn accepts(s: Seq<char>) -> bool {
        TriggeringEntitiesRule::from_wire_name(s) is Some
    }

    open spec fn denotes(s: Seq<char>, v: TriggeringEntitiesRule) -> bool {
        TriggeringEntitiesRule::from_wire_name(s) == Some(v)
    }

    open spec fn type_label() -> Seq<char> {
        "TriggeringEntitiesRule"@
    }

    fn parse_text(s: &str) -> (r: Option<TriggeringEntitiesRule>) {
        match TriggeringEntitiesRule::from_wire(s) {
            Ok(v) => Some(v),
            Err(_) => None,
        }
    }

    fn kind_name() -> (r: String) {
        "TriggeringEntitiesRule".to_owned()
    }

    proof fn lemma_same_is_equal(a: &Self, b: &Self) {
    }
}

impl std::str::FromStr for TriggeringEntitiesRule {
    type Err = String;

    fn from_str(s: &str) -> Result<TriggeringEntitiesRule, String> {
        TriggeringEntitiesRule::from_wire(s)
    }
}

/// Priority level for events and actions
#[derive(Debug, Clone, Copy, PartialEq, Eq, Hash)]
pub enum Priority {
    Overwrite,
    Override,
    Parallel,
    Skip,
}

impl Priority {
    /// The name under which this value is written.
    pub open spec fn wire_name(self) -> Seq<char> {
        match self {
            Priority::Overwrite => seq!['o', 'v', 'e', 'r', 'w', 'r', 'i', 't', 'e'],
            Priority::Override => seq!['o', 'v', 'e', 'r', 'r', 'i', 'd', 'e'],
            Priority::Parallel => seq!['p', 'a', 'r', 'a', 'l', 'l', 'e', 'l'],
            Priority::Skip => seq!['s', 'k', 'i', 'p'],
        }
    }

    /// The value written under `s`, if any.
    pub open spec fn from_wire_name(s: Seq<char>) -> Option<Priority> {
        if s == Priority::Overwrite.wire_name() {
            Some(Priority::Overwrite)
        } else if s == Priority::Override.wire_name() {
            Some(Priority::Override)
        } else if s == Priority::Parallel.wire_name() {
            Some(Priority::Parallel)
        } else if s == Priority::Skip.wire_name() {
            Some(Priority::Skip)
        } else {
            None
        }
    }

    /// Every value, in declaration order.
    pub open spec fn all_values() -> Seq<Priority> {
        seq![Priority::Overwrite, Priority::Override, Priority::Parallel, Priority::Skip]
    }

    /// The name under which this value is written.
    pub fn as_str(&self) -> (r: &'static str)
        ensures
            r@ == self.wire_name(),
    {
        match self {
            Priority::Overwrite => {
                proof {
                    reveal_strlit("overwrite");
                }
                "overwrite"
            },
            Priority::Override => {
                proof {
                    reveal_strlit("override");
                }
                "override"
            },
            Priority::Parallel => {
                proof {
                    reveal_strlit("parallel");
                }
                "parallel"
            },
            Priority::Skip => {
                proof {
                    reveal_strlit("skip");
                }
                "skip"
            },
        }
    }

    /// The name under which this value is written, as an owned string.
    pub fn to_string(&self) -> (r: String)
        ensures
            r@ == self.wire_name(),
    {
        self.as_str().to_owned()
    }

    /// The value written under `s`; an error message naming `s` when no value is.
    pub fn from_wire(s: &str) -> (r: Result<Priority, String>)
        ensures
            match r {
                Ok(v) => Priority::from_wire_name(s@) == Some(v),
                Err(m) => Priority::from_wire_name(s@) is None && m@ == "Invalid Priority: "@ + s@,
            },
    {
        if str_eq(s, Priority::Overwrite.as_str()) {
            return Ok(Priority::Overwrite);
        }
        if str_eq(s, Priority::Override.as_str()) {
            return Ok(Priority::Override);
        }
        if str_eq(s, Priority::Parallel.as_str()) {
            return Ok(Priority::Parallel);
        }
        if str_eq(s, Priority::Skip.as_str()) {
            return Ok(Priority::Skip);
        }
        let prefix: String = "Invalid Priority: ".to_owned();
        Err(prefix.concat(s))
    }

    /// Every value, in declaration order.
    pub fn all() -> (r: Vec<Priority>)
        ensures
            r@ == Priority::all_values(),
    {
        let r = vec![Priority::Overwrite, Priority::Override, Priority::Parallel, Priority::Skip];
        assert(r@ =~= Priority::all_values());
        r
    }

    /// The written names of the values, as documents write them: each value's name, and
    /// the value that each name is read as.
    pub proof fn lemma_written_names()
        ensures
            Priority::Overwrite.wire_name() == "overwrite"@,
            Priority::from_wire_name("overwrite"@) == Some(Priority::Overwrite),
            Priority::Override.wire_name() == "override"@,
            Priority::from_wire_name("override"@) == Some(Priority::Override),
            Priority::Parallel.wire_name() == "parallel"@,
            Priority::from_wire_name("parallel"@) == Some(Priority::Parallel),
            Priority::Skip.wire_name() == "skip"@,
            Priority::from_wire_name("skip"@) == Some(Priority::Skip),
    {
        reveal_strlit("overwrite");
        assert("overwrite"@ =~= Priority::Overwrite.wire_name());
        Priority::lemma_wire_name_round_trip(Priority::Overwrite);
        reveal_strlit("override");
        assert("override"@ =~= Priority::Override.wire_name());
        Priority::lemma_wire_name_round_trip(Priority::Override);
        reveal_strlit("parallel");
        assert("parallel"@ =~= Priority::Parallel.wire_name());
        Priority::lemma_wire_name_round_trip(Priority::Parallel);
        reveal_strlit("skip");
        assert("skip"@ =~= Priority::Skip.wire_name());
        Priority::lemma_wire_name_round_trip(Priority::Skip);
    }

    /// A text that parses to a value is that value's name.
    pub proof fn lemma_parsed_text_is_wire_name(s: Seq<char>)
        ensures
            Priority::from_wire_name(s) matches Some(v) ==> v.wire_name() == s,
    {
    }

    /// The name of a value parses back to that value.
    pub proof fn lemma_wire_name_round_trip(v: Priority)
        ensures
            Priority::from_wire_name(v.wire_name()) == Some(v),
    {
        match v {
            Priority::Overwrite => {
            },
            Priority::Override => {
                assert(Priority::Override.wire_name().len() != Priority::Overwrite.wire_name().len());
            },
            Priority::Parallel => {
                assert(Priority::Parallel.wire_name().len() != Priority::Overwrite.wire_name().len());
                assert(Priority::Parallel.wire_name()[0] != Priority::Override.wire_name()[0]);
            },
            Priority::Skip => {
                assert(Priority::Skip.wire_name().len() != Priority::Overwrite.wire_name().len());
                assert(Priority::Skip.wire_name().len() != Priority::Override.wire_name().len());
                assert(Priority::Skip.wire_name().len() != Priority::Parallel.wire_name().len());
            },
        }
    }

}

impl Duplicate for Priority {
    open spec fn same(&self, other: &Self) -> bool {
        *self == *other
    }

    fn copied(&self) -> (r: Priority) {
        *self
    }
}

impl ParamValue for Priority {
    open spec fn accepts(s: Seq<char>) -> bool {
        Priority::from_wire_name(s) is Some
    }

    open spec fn denotes(s: Seq<char>, v: Priority) -> bool {
        Priority::from_wire_name(s) == Some(v)
    }

    open spec fn type_label() -> Seq<char> {
        "Priority"@
    }

    fn parse_text(s: &str) -> (r: Option<Priority>) {
        match Priority::from_wire(s) {
            Ok(v) => Some(v),
            Err(_) => None,
        }
    }

    fn kind_name() -> (r: String) {
        "Priority".to_owned()
    }

    proof fn lemma_same_is_equal(a: &Self, b: &Self) {
    }
}

impl std::str::FromStr for Priority {
    type Err = String;

    fn from_str(s: &str) -> Result<Priority, String> {
        Priority::from_wire(s)
    }
}

/// Storyboard element state enumeration
#[derive(Debug, Clone, Copy, PartialEq, Eq, Hash)]
pub enum StoryboardElementState {
    CompleteState,
    EndTransition,
    RunningState,
    SkipTransition,
    StandbyState,
    StartTransition,
    StopTransition,
}

impl StoryboardElementState {
    /// The name under which this value is written.
    pub open spec fn wire_name(self) -> Seq<char> {
        match self {
            StoryboardElementState::CompleteState => seq!['c', 'o', 'm', 'p', 'l', 'e', 't', 'e', 'S', 't', 'a', 't', 'e'],
            StoryboardElementState::EndTransition => seq!['e', 'n', 'd', 'T', 'r', 'a', 'n', 's', 'i', 't', 'i', 'o', 'n'],
            StoryboardElementState::RunningState => seq!['r', 'u', 'n', 'n', 'i', 'n', 'g', 'S', 't', 'a', 't', 'e'],
            StoryboardElementState::SkipTransition => seq!['s', 'k', 'i', 'p', 'T', 'r', 'a', 'n', 's', 'i', 't', 'i', 'o', 'n'],
            StoryboardElementState::StandbyState => seq!['s', 't', 'a', 'n', 'd', 'b', 'y', 'S', 't', 'a', 't', 'e'],
            StoryboardElementState::StartTransition => seq!['s', 't', 'a', 'r', 't', 'T', 'r', 'a', 'n', 's', 'i', 't', 'i', 'o', 'n'],
            StoryboardElementState::StopTransition => seq!['s', 't', 'o', 'p', 'T', 'r', 'a', 'n', 's', 'i', 't', 'i', 'o', 'n'],
        }
    }

    /// The value written under `s`, if any.
    pub open spec fn from_wire_name(s: Seq<char>) -> Option<StoryboardElementState> {
        if s == StoryboardElementState::CompleteState.wire_name() {
            Some(StoryboardElementState::CompleteState)
        } else if s == StoryboardElementState::EndTransition.wire_name() {
            Some(StoryboardElementState::EndTransition)
        } else if s == StoryboardElementState::RunningState.wire_name() {
            Some(StoryboardElementState::RunningState)
        } else if s == StoryboardElementState::SkipTransition.wire_name() {
            Some(StoryboardElementState::SkipTransition)
        } else if s == StoryboardElementState::StandbyState.wire_name() {
            Some(StoryboardElementState::StandbyState)
        } else if s == StoryboardElementState::StartTransition.wire_name() {
            Some(StoryboardElementState::StartTransition)
        } else if s == StoryboardElementState::StopTransition.wire_name() {
            Some(StoryboardElementState::StopTransition)
        } else {
            None
        }
    }

    /// Every value, in declaration order.
    pub open spec fn all_values() -> Seq<StoryboardElementState> {
        seq![StoryboardElementState::CompleteState, StoryboardElementState::EndTransition, StoryboardElementState::RunningState, StoryboardElementState::SkipTransition, StoryboardElementState::StandbyState, StoryboardElementState::StartTransition, StoryboardElementState::StopTransition]
    }

    /// The name under which this value is written.
    pub fn as_str(&self) -> (r: &'static str)
        ensures
            r@ == self.wire_name(),
    {
        match self {
            StoryboardElementState::CompleteState => {
                proof {
                    reveal_strlit("completeState");
                }
                "completeState"
            },
            StoryboardElementState::EndTransition => {
                proof {
                    reveal_strlit("endTransition");
                }
                "endTransition"
            },
            StoryboardElementState::RunningState => {
                proof {
                    reveal_strlit("runningState");
                }
                "runningState"
            },
            StoryboardElementState::SkipTransition => {
                proof {
                    reveal_strlit("skipTransition");
                }
                "skipTransition"
            },
            StoryboardElementState::StandbyState => {
                proof {
                    reveal_strlit("standbyState");
                }
                "standbyState"
            },
            StoryboardElementState::StartTransition => {
                proof {
                    reveal_strlit("startTransition");
                }
                "startTransition"
            },
            StoryboardElementState::StopTransition => {
                proof {
                    reveal_strlit("stopTransition");
                }
                "stopTransition"
            },
        }
    }

    /// The name under which this value is written, as an owned string.
    pub fn to_string(&self) -> (r: String)
        ensures
            r@ == self.wire_name(),
    {
        self.as_str().to_owned()
    }

    /// The value written under `s`; an error message naming `s` when no value is.
    pub fn from_wire(s: &str) -> (r: Result<StoryboardElementState, String>)
        ensures
            match r {
                Ok(v) => StoryboardElementState::from_wire_name(s@) == Some(v),
                Err(m) => StoryboardElementState::from_wire_name(s@) is None && m@ == "Invalid StoryboardElementState: "@ + s@,
            },
    {
        if str_eq(s, StoryboardElementState::CompleteState.as_str()) {
            return Ok(StoryboardElementState::CompleteState);
        }
        if str_eq(s, StoryboardElementState::EndTransition.as_str()) {
            return Ok(StoryboardElementState::EndTransition);
        }
        if str_eq(s, StoryboardElementState::RunningState.as_str()) {
            return Ok(StoryboardElementState::RunningState);
        }
        if str_eq(s, StoryboardElementState::SkipTransition.as_str()) {
            return Ok(StoryboardElementState::SkipTransition);
        }
        if str_eq(s, StoryboardElementState::StandbyState.as_str()) {
            return Ok(StoryboardElementState::StandbyState);
        }
        if str_eq(s, StoryboardElementState::StartTransition.as_str()) {
            return Ok(StoryboardElementState::StartTransition);
        }
        if str_eq(s, StoryboardElementState::StopTransition.as_str()) {
            return Ok(StoryboardElementState::StopTransition);
        }
        let prefix: String = "Invalid StoryboardElementState: ".to_owned();
        Err(prefix.concat(s))
    }

    /// Every value, in declaration order.
    pub fn all() -> (r: Vec<StoryboardElementState>)
        ensures
            r@ == StoryboardElementState::all_values(),
    {
        let r = vec![StoryboardElementState::CompleteState, StoryboardElementState::EndTransition, StoryboardElementState::RunningState, StoryboardElementState::SkipTransition, StoryboardElementState::StandbyState, StoryboardElementState::StartTransition, StoryboardElementState::StopTransition];
        assert(r@ =~= StoryboardElementState::all_values());
        r
    }

    /// The written names of the values, as documents write them: each value's name, and
    /// the value that each name is read as.
    pub proof fn lemma_written_names()
        ensures
            StoryboardElementState::CompleteState.wire_name() == "completeState"@,
            StoryboardElementState::from_wire_name("completeState"@) == Some(StoryboardElementState::CompleteState),
            StoryboardElementState::EndTransition.wire_name() == "endTransition"@,
            StoryboardElementState::from_wire_name("endTransition"@) == Some(StoryboardElementState::EndTransition),
            StoryboardElementState::RunningState.wire_name() == "runningState"@,
            StoryboardElementState::from_wire_name("runningState"@) == Some(StoryboardElementState::RunningState),
            StoryboardElementState::SkipTransition.wire_name() == "skipTransition"@,
            StoryboardElementState::from_wire_name("skipTransition"@) == Some(StoryboardElementState::SkipTransition),
            StoryboardElementState::StandbyState.wire_name() == "standbyState"@,
            StoryboardElementState::from_wire_name("standbyState"@) == Some(StoryboardElementState::StandbyState),
            StoryboardElementState::StartTransition.wire_name() == "startTransition"@,
            StoryboardElementState::from_wire_name("startTransition"@) == Some(StoryboardElementState::StartTransition),
            StoryboardElementState::StopTransition.wire_name() == "stopTransition"@,
            StoryboardElementState::from_wire_name("stopTransition"@) == Some(StoryboardElementState::StopTransition),
    {
        reveal_strlit("completeState");
        assert("completeState"@ =~= StoryboardElementState::CompleteState.wire_name());
        StoryboardElementState::lemma_wire_name_round_trip(StoryboardElementState::CompleteState);
        reveal_strlit("endTransition");
        assert("endTransition"@ =~= StoryboardElementState::EndTransition.wire_name());
        StoryboardElementState::lemma_wire_name_round_trip(StoryboardElementState::EndTransition);
        reveal_strlit("runningState");
        assert("runningState"@ =~= StoryboardElementState::RunningState.wire_name());
        StoryboardElementState::lemma_wire_name_round_trip(StoryboardElementState::RunningState);
        reveal_strlit("skipTransition");
        assert("skipTransition"@ =~= StoryboardElementState::SkipTransition.wire_name());
        StoryboardElementState::lemma_wire_name_round_trip(StoryboardElementState::SkipTransition);
        reveal_strlit("standbyState");
        assert("standbyState"@ =~= StoryboardElementState::StandbyState.wire_name());
        StoryboardElementState::lemma_wire_name_round_trip(StoryboardElementState::StandbyState);
        reveal_strlit("startTransition");
        assert("startTransition"@ =~= StoryboardElementState::StartTransition.wire_name());
        StoryboardElementState::lemma_wire_name_round_trip(StoryboardElementState::StartTransition);
        reveal_strlit("stopTransition");
        assert("stopTransition"@ =~= StoryboardElementState::StopTransition.wire_name());
        StoryboardElementState::lemma_wire_name_round_trip(StoryboardElementState::StopTransition);
    }

    /// A text that parses to a value is that value's name.
    pub proof fn lemma_parsed_text_is_wire_name(s: Seq<char>)
        ensures
            StoryboardElementState::from_wire_name(s) matches Some(v) ==> v.wire_name() == s,
    {
    }

    /// The name of a value parses back to that value.
    pub proof fn lemma_wire_name_round_trip(v: StoryboardElementState)
        ensures
            StoryboardElementState::from_wire_name(v.wire_name()) == Some(v),
    {
        match v {
            StoryboardElementState::CompleteState => {
            },
            StoryboardElementState::EndTransition => {
                assert(StoryboardElementState::EndTransition.wire_name()[0] != StoryboardElementState::CompleteState.wire_name()[0]);
            },
            StoryboardElementState::RunningState => {
                assert(StoryboardElementState::RunningState.wire_name().len() != StoryboardElementState::CompleteState.wire_name().len());
                assert(StoryboardElementState::RunningState.wire_name().len() != StoryboardElementState::EndTransition.wire_name().len());
            },
            StoryboardElementState::SkipTransition => {
                assert(StoryboardElementState::SkipTransition.wire_name().len() != StoryboardElementState::CompleteState.wire_name().len());
                assert(StoryboardElementState::SkipTransition.wire_name().len() != StoryboardElementState::EndTransition.wire_name().len());
                assert(StoryboardElementState::SkipTransition.wire_name().len() != StoryboardElementState::RunningState.wire_name().len());
            },
            StoryboardElementState::StandbyState => {
                assert(StoryboardElementState::StandbyState.wire_name().len() != StoryboardElementState::CompleteState.wire_name().len());
                assert(StoryboardElementState::StandbyState.wire_name().len() != StoryboardElementState::EndTransition.wire_name().len());
                assert(StoryboardElementState::StandbyState.wire_name()[0] != StoryboardElementState::RunningState.wire_name()[0]);
                assert(StoryboardElementState::StandbyState.wire_name().len() != StoryboardElementState::SkipTransition.wire_name().len());
            },
            StoryboardElementState::StartTransition => {
                assert(StoryboardElementState::StartTransition.wire_name().len() != StoryboardElementState::CompleteState.wire_name().len());
                assert(StoryboardElementState::StartTransition.wire_name().len() != StoryboardElementState::EndTransition.wire_name().len());
                assert(StoryboardElementState::StartTransition.wire_name().len() != StoryboardElementState::RunningState.wire_name().len());
                assert(StoryboardElementState::StartTransition.wire_name().len() != StoryboardElementState::SkipTransition.wire_name().len());
                assert(StoryboardElementState::StartTransition.wire_name().len() != StoryboardElementState::StandbyState.wire_name().len());
            },
            StoryboardElementState::StopTransition => {
                assert(StoryboardElementState::StopTransition.wire_name().len() != StoryboardElementState::CompleteState.wire_name().len());
                assert(StoryboardElementState::StopTransition.wire_name().len() != StoryboardElementState::EndTransition.wire_name().len());
                assert(StoryboardElementState::StopTransition.wire_name().len() != StoryboardElementState::RunningState.wire_name().len());
                assert(StoryboardElementState::StopTransition.wire_name()[1] != StoryboardElementState::SkipTransition.wire_name()[1]);
                assert(StoryboardElementState::StopTransition.wire_name().len() != StoryboardElementState::StandbyState.wire_name().len());
                assert(StoryboardElementState::StopTransition.wire_name().len() != StoryboardElementState::StartTransition.wire_name().len());
            },
        }
    }

}

impl Duplicate for StoryboardElementState {
    open spec fn same(&self, other: &Self) -> bool {
        *self == *other
    }

    fn copied(&self) -> (r: StoryboardElementState) {
        *self
    }
}

impl ParamValue for StoryboardElementState {
    open spec fn accepts(s: Seq<char>) -> bool {
        StoryboardElementState::from_wire_name(s) is Some
    }

    open spec fn denotes(s: Seq<char>, v: StoryboardElementState) -> bool {
        StoryboardElementState::from_wire_name(s) == Some(v)
    }

    open spec fn type_label() -> Seq<char> {
        "StoryboardElementState"@
    }

    fn parse_text(s: &str) -> (r: Option<StoryboardElementState>) {
        match StoryboardElementState::from_wire(s) {
            Ok(v) => Some(v),
            Err(_) => None,
        }
    }

    fn kind_name() -> (r: String) {
        "StoryboardElementState".to_owned()
    }

    proof fn lemma_same_is_equal(a: &Self, b: &Self) {
    }
}

impl std::str::FromStr for StoryboardElementState {
    type Err = String;

    fn from_str(s: &str) -> Result<StoryboardElementState, String> {
        StoryboardElementState::from_wire(s)
    }
}

/// Storyboard element type enumeration
#[derive(Debug, Clone, Copy, PartialEq, Eq, Hash)]
pub enum StoryboardElementType {
    Act,
    Action,
    Event,
    Maneuver,
    ManeuverGroup,
    Story,
}

impl StoryboardElementType {
    /// The name under which this value is written.
    pub open spec fn wire_name(self) -> Seq<char> {
        match self {
            StoryboardElementType::Act => seq!['a', 'c', 't'],
            StoryboardElementType::Action => seq!['a', 'c', 't', 'i', 'o', 'n'],
            StoryboardElementType::Event => seq!['e', 'v', 'e', 'n', 't'],
            StoryboardElementType::Maneuver => seq!['m', 'a', 'n', 'e', 'u', 'v', 'e', 'r'],
            StoryboardElementType::ManeuverGroup => seq!['m', 'a', 'n', 'e', 'u', 'v', 'e', 'r', 'G', 'r', 'o', 'u', 'p'],
            StoryboardElementType::Story => seq!['s', 't', 'o', 'r', 'y'],
        }
    }

    /// The value written under `s`, if any.
    pub open spec fn from_wire_name(s: Seq<char>) -> Option<StoryboardElementType> {
        if s == StoryboardElementType::Act.wire_name() {
            Some(StoryboardElementType::Act)
        } else if s == StoryboardElementType::Action.wire_name() {
            Some(StoryboardElementType::Action)
        } else if s == StoryboardElementType::Event.wire_name() {
            Some(StoryboardElementType::Event)
        } else if s == StoryboardElementType::Maneuver.wire_name() {
            Some(StoryboardElementType::Maneuver)
        } else if s == StoryboardElementType::ManeuverGroup.wire_name() {
            Some(StoryboardElementType::ManeuverGroup)
        } else if s == StoryboardElementType::Story.wire_name() {
            Some(StoryboardElementType::Story)
        } else {
            None
        }
    }

    /// Every value, in declaration order.
    pub open spec fn all_values() -> Seq<StoryboardElementType> {
        seq![StoryboardElementType::Act, StoryboardElementType::Action, StoryboardElementType::Event, StoryboardElementType::Maneuver, StoryboardElementType::ManeuverGroup, StoryboardElementType::Story]
    }

    /// The name under which this value is written.
    pub fn as_str(&self) -> (r: &'static str)
        ensures
            r@ == self.wire_name(),
    {
        match self {
            StoryboardElementType::Act => {
                proof {
                    reveal_strlit("act");
                }
                "act"
            },
            StoryboardElementType::Action => {
                proof {
                    reveal_strlit("action");
                }
                "action"
            },
            StoryboardElementType::Event => {
                proof {
                    reveal_strlit("event");
                }
                "event"
            },
            StoryboardElementType::Maneuver => {
                proof {
                    reveal_strlit("maneuver");
                }
                "maneuver"
            },
            StoryboardElementType::ManeuverGroup => {
                proof {
                    reveal_strlit("maneuverGroup");
                }
                "maneuverGroup"
            },
            StoryboardElementType::Story => {
                proof {
                    reveal_strlit("story");
                }
                "story"
            },
        }
    }

    /// The name under which this value is written, as an owned string.
    pub fn to_string(&self) -> (r: String)
        ensures
            r@ == self.wire_name(),
    {
        self.as_str().to_owned()
    }

    /// The value written under `s`; an error message naming `s` when no value is.
    pub fn from_wire(s: &str) -> (r: Result<StoryboardElementType, String>)
        ensures
            match r {
                Ok(v) => StoryboardElementType::from_wire_name(s@) == Some(v),
                Err(m) => StoryboardElementType::from_wire_name(s@) is None && m@ == "Invalid StoryboardElementType: "@ + s@,
            },
    {
        if str_eq(s, StoryboardElementType::Act.as_str()) {
            return Ok(StoryboardElementType::Act);
        }
        if str_eq(s, StoryboardElementType::Action.as_str()) {
            return Ok(StoryboardElementType::Action);
        }
        if str_eq(s, StoryboardElementType::Event.as_str()) {
            return Ok(StoryboardElementType::Event);
        }
        if str_eq(s, StoryboardElementType::Maneuver.as_str()) {
            return Ok(StoryboardElementType::Maneuver);
        }
        if str_eq(s, StoryboardElementType::ManeuverGroup.as_str()) {
            return Ok(StoryboardElementType::ManeuverGroup);
        }
        if str_eq(s, StoryboardElementType::Story.as_str()) {
            return Ok(StoryboardElementType::Story);
        }
        let prefix: String = "Invalid StoryboardElementType: ".to_owned();
        Err(prefix.concat(s))
    }

    /// Every value, in declaration order.
    pub fn all() -> (r: Vec<StoryboardElementType>)
        ensures
            r@ == StoryboardElementType::all_values(),
    {
        let r = vec![StoryboardElementType::Act, StoryboardElementType::Action, StoryboardElementType::Event, StoryboardElementType::Maneuver, StoryboardElementType::ManeuverGroup, StoryboardElementType::Story];
        assert(r@ =~= StoryboardElementType::all_values());
        r
    }

    /// The written names of the values, as documents write them: each value's name, and
    /// the value that each name is read as.
    pub proof fn lemma_written_names()
        ensures
            StoryboardElementType::Act.wire_name() == "act"@,
            StoryboardElementType::from_wire_name("act"@) == Some(StoryboardElementType::Act),
            StoryboardElementType::Action.wire_name() == "action"@,
            StoryboardElementType::from_wire_name("action"@) == Some(StoryboardElementType::Action),
            StoryboardElementType::Event.wire_name() == "event"@,
            StoryboardElementType::from_wire_name("event"@) == Some(StoryboardElementType::Event),
            StoryboardElementType::Maneuver.wire_name() == "maneuver"@,
            StoryboardElementType::from_wire_name("maneuver"@) == Some(StoryboardElementType::Maneuver),
            StoryboardElementType::ManeuverGroup.wire_name() == "maneuverGroup"@,
            StoryboardElementType::from_wire_name("maneuverGroup"@) == Some(StoryboardElementType::ManeuverGroup),
            StoryboardElementType::Story.wire_name() == "story"@,
            StoryboardElementType::from_wire_name("story"@) == Some(StoryboardElementType::Story),
    {
        reveal_strlit("act");
        assert("act"@ =~= StoryboardElementType::Act.wire_name());
        StoryboardElementType::lemma_wire_name_round_trip(StoryboardElementType::Act);
        reveal_strlit("action");
        assert("action"@ =~= StoryboardElementType::Action.wire_name());
        StoryboardElementType::lemma_wire_name_round_trip(StoryboardElementType::Action);
        reveal_strlit("event");
        assert("event"@ =~= StoryboardElementType::Event.wire_name());
        StoryboardElementType::lemma_wire_name_round_trip(StoryboardElementType::Event);
        reveal_strlit("maneuver");
        assert("maneuver"@ =~= StoryboardElementType::Maneuver.wire_name());
        StoryboardElementType::lemma_wire_name_round_trip(StoryboardElementType::Maneuver);
        reveal_strlit("maneuverGroup");
        assert("maneuverGroup"@ =~= StoryboardElementType::ManeuverGroup.wire_name());
        StoryboardElementType::lemma_wire_name_round_trip(StoryboardElementType::ManeuverGroup);
        reveal_strlit("story");
        assert("story"@ =~= StoryboardElementType::Story.wire_name());
        StoryboardElementType::lemma_wire_name_round_trip(StoryboardElementType::Story);
    }

    /// A text that parses to a value is that value's name.
    pub proof fn lemma_parsed_text_is_wire_name(s: Seq<char>)
        ensures
            StoryboardElementType::from_wire_name(s) matches Some(v) ==> v.wire_name() == s,
    {
    }

    /// The name of a value parses back to that value.
    pub proof fn lemma_wire_name_round_trip(v: StoryboardElementType)
        ensures
            StoryboardElementType::from_wire_name(v.wire_name()) == Some(v),
    {
        match v {
            StoryboardElementType::Act => {
            },
            StoryboardElementType::Action => {
                assert(StoryboardElementType::Action.wire_name().len() != StoryboardElementType::Act.wire_name().len());
            },
            StoryboardElementType::Event => {
                assert(StoryboardElementType::Event.wire_name().len() != StoryboardElementType::Act.wire_name().len());
                assert(StoryboardElementType::Event.wire_name().len() != StoryboardElementType::Action.wire_name().len());
            },
            StoryboardElementType::Maneuver => {
                assert(StoryboardElementType::Maneuver.wire_name().len() != StoryboardElementType::Act.wire_name().len());
                assert(StoryboardElementType::Maneuver.wire_name().len() != StoryboardElementType::Action.wire_name().len());
                assert(StoryboardElementType::Maneuver.wire_name().len() != StoryboardElementType::Event.wire_name().len());
            },
            StoryboardElementType::ManeuverGroup => {
                assert(StoryboardElementType::ManeuverGroup.wire_name().len() != StoryboardElementType::Act.wire_name().len());
                assert(StoryboardElementType::ManeuverGroup.wire_name().len() != StoryboardElementType::Action.wire_name().len());
                assert(StoryboardElementType::ManeuverGroup.wire_name().len() != StoryboardElementType::Event.wire_name().len());
                assert(StoryboardElementType::ManeuverGroup.wire_name().len() != StoryboardElementType::Maneuver.wire_name().len());
            },
            StoryboardElementType::Story => {
                assert(StoryboardElementType::Story.wire_name().len() != StoryboardElementType::Act.wire_name().len());
                assert(StoryboardElementType::Story.wire_name().len() != StoryboardElementType::Action.wire_name().len());
                assert(StoryboardElementType::Story.wire_name()[0] != StoryboardElementType::Event.wire_name()[0]);
                assert(StoryboardElementType::Story.wire_name().len() != StoryboardElementType::Maneuver.wire_name().len());
                assert(StoryboardElementType::Story.wire_name().len() != StoryboardElementType::ManeuverGroup.wire_name().len());
            },
        }
    }

}

impl Duplicate for StoryboardElementType {
    open spec fn same(&self, other: &Self) -> bool {
        *self == *other
    }

    fn copied(&self) -> (r: StoryboardElementType) {
        *self
    }
}

impl ParamValue for StoryboardElementType {
    open spec fn accepts(s: Seq<char>) -> bool {
        StoryboardElementType::from_wire_name(s) is Some
    }

    open spec fn denotes(s: Seq<char>, v: StoryboardElementType) -> bool {
        StoryboardElementType::from_wire_name(s) == Some(v)
    }

    open spec fn type_label() -> Seq<char> {
        "StoryboardElementType"@
    }

    fn parse_text(s: &str) -> (r: Option<StoryboardElementType>) {
        match StoryboardElementType::from_wire(s) {
            Ok(v) => Some(v),
            Err(_) => None,
        }
    }

    fn kind_name() -> (r: String) {
        "StoryboardElementType".to_owned()
    }

    proof fn lemma_same_is_equal(a: &Self, b: &Self) {
    }
}

impl std::str::FromStr for StoryboardElementType {
    type Err = String;

    fn from_str(s: &str) -> Result<StoryboardElementType, String> {
        StoryboardElementType::from_wire(s)
    }
}

/// Parameter data type enumeration
#[derive(Debug, Clone, Copy, PartialEq, Eq, Hash)]
pub enum ParameterType {
    Boolean,
    DateTime,
    Double,
    Int,
    Integer,
    String,
    UnsignedInt,
    UnsignedShort,
}

impl ParameterType {
    /// The name under which this value is written.
    pub open spec fn wire_name(self) -> Seq<char> {
        match self {
            ParameterType::Boolean => seq!['b', 'o', 'o', 'l', 'e', 'a', 'n'],
            ParameterType::DateTime => seq!['d', 'a', 't', 'e', 'T', 'i', 'm', 'e'],
            ParameterType::Double => seq!['d', 'o', 'u', 'b', 'l', 'e'],
            ParameterType::Int => seq!['i', 'n', 't'],
            ParameterType::Integer => seq!['i', 'n', 't', 'e', 'g', 'e', 'r'],
            ParameterType::String => seq!['s', 't', 'r', 'i', 'n', 'g'],
            ParameterType::UnsignedInt => seq!['u', 'n', 's', 'i', 'g', 'n', 'e', 'd', 'I', 'n', 't'],
            ParameterType::UnsignedShort => seq!['u', 'n', 's', 'i', 'g', 'n', 'e', 'd', 'S', 'h', 'o', 'r', 't'],
        }
    }

    /// The value written under `s`, if any.
    pub open spec fn from_wire_name(s: Seq<char>) -> Option<ParameterType> {
        if s == ParameterType::Boolean.wire_name() {
            Some(ParameterType::Boolean)
        } else if s == ParameterType::DateTime.wire_name() {
            Some(ParameterType::DateTime)
        } else if s == ParameterType::Double.wire_name() {
            Some(ParameterType::Double)
        } else if s == ParameterType::Int.wire_name() {
            Some(ParameterType::Int)
        } else if s == ParameterType::Integer.wire_name() {
            Some(ParameterType::Integer)
        } else if s == ParameterType::String.wire_name() {
            Some(ParameterType::String)
        } else if s == ParameterType::UnsignedInt.wire_name() {
            Some(ParameterType::UnsignedInt)
        } else if s == ParameterType::UnsignedShort.wire_name() {
            Some(ParameterType::UnsignedShort)
        } else {
            None
        }
    }

    /// Every value, in declaration order.
    pub open spec fn all_values() -> Seq<ParameterType> {
        seq![ParameterType::Boolean, ParameterType::DateTime, ParameterType::Double, ParameterType::Int, ParameterType::Integer, ParameterType::String, ParameterType::UnsignedInt, ParameterType::UnsignedShort]
    }

    /// The name under which this value is written.
    pub fn as_str(&self) -> (r: &'static str)
        ensures
            r@ == self.wire_name(),
    {
        match self {
            ParameterType::Boolean => {
                proof {
                    reveal_strlit("boolean");
                }
                "boolean"
            },
            ParameterType::DateTime => {
                proof {
                    reveal_strlit("dateTime");
                }
                "dateTime"
            },
            ParameterType::Double => {
                proof {
                    reveal_strlit("double");
                }
                "double"
            },
            ParameterType::Int => {
                proof {
                    reveal_strlit("int");
                }
                "int"
            },
            ParameterType::Integer => {
                proof {
                    reveal_strlit("integer");
                }
                "integer"
            },
            ParameterType::String => {
                proof {
                    reveal_strlit("string");
                }
                "string"
            },
            ParameterType::UnsignedInt => {
                proof {
                    reveal_strlit("unsignedInt");
                }
                "unsignedInt"
            },
            ParameterType::UnsignedShort => {
                proof {
                    reveal_strlit("unsignedShort");
                }
                "unsignedShort"
            },
        }
    }

    /// The name under which this value is written, as an owned string.
    pub fn to_string(&self) -> (r: String)
        ensures
            r@ == self.wire_name(),
    {
        self.as_str().to_owned()
    }

    /// The value written under `s`; an error message naming `s` when no value is.
    pub fn from_wire(s: &str) -> (r: Result<ParameterType, String>)
        ensures
            match r {
                Ok(v) => ParameterType::from_wire_name(s@) == Some(v),
                Err(m) => ParameterType::from_wire_name(s@) is None && m@ == "Invalid ParameterType: "@ + s@,
            },
    {
        if str_eq(s, ParameterType::Boolean.as_str()) {
            return Ok(ParameterType::Boolean);
        }
        if str_eq(s, ParameterType::DateTime.as_str()) {
            return Ok(ParameterType::DateTime);
        }
        if str_eq(s, ParameterType::Double.as_str()) {
            return Ok(ParameterType::Double);
        }
        if str_eq(s, ParameterType::Int.as_str()) {
            return Ok(ParameterType::Int);
        }
        if str_eq(s, ParameterType::Integer.as_str()) {
            return Ok(ParameterType::Integer);
        }
        if str_eq(s, ParameterType::String.as_str()) {
            return Ok(ParameterType::String);
        }
        if str_eq(s, ParameterType::UnsignedInt.as_str()) {
            return Ok(ParameterType::UnsignedInt);
        }
        if str_eq(s, ParameterType::UnsignedShort.as_str()) {
            return Ok(ParameterType::UnsignedShort);
        }
        let prefix: String = "Invalid ParameterType: ".to_owned();
        Err(prefix.concat(s))
    }

    /// Every value, in declaration order.
    pub fn all() -> (r: Vec<ParameterType>)
        ensures
            r@ == ParameterType::all_values(),
    {
        let r = vec![ParameterType::Boolean, ParameterType::DateTime, ParameterType::Double, ParameterType::Int, ParameterType::Integer, ParameterType::String, ParameterType::UnsignedInt, ParameterType::UnsignedShort];
        assert(r@ =~= ParameterType::all_values());
        r
    }

    /// The written names of the values, as documents write them: each value's name, and
    /// the value that each name is read as.
    pub proof fn lemma_written_names()
        ensures
            ParameterType::Boolean.wire_name() == "boolean"@,
            ParameterType::from_wire_name("boolean"@) == Some(ParameterType::Boolean),
            ParameterType::DateTime.wire_name() == "dateTime"@,
            ParameterType::from_wire_name("dateTime"@) == Some(ParameterType::DateTime),
            ParameterType::Double.wire_name() == "double"@,
            ParameterType::from_wire_name("double"@) == Some(ParameterType::Double),
            ParameterType::Int.wire_name() == "int"@,
            ParameterType::from_wire_name("int"@) == Some(ParameterType::Int),
            ParameterType::Integer.wire_name() == "integer"@,
            ParameterType::from_wire_name("integer"@) == Some(ParameterType::Integer),
            ParameterType::String.wire_name() == "string"@,
            ParameterType::from_wire_name("string"@) == Some(ParameterType::String),
            ParameterType::UnsignedInt.wire_name() == "unsignedInt"@,
            ParameterType::from_wire_name("unsignedInt"@) == Some(ParameterType::UnsignedInt),
            ParameterType::UnsignedShort.wire_name() == "unsignedShort"@,
            ParameterType::from_wire_name("unsignedShort"@) == Some(ParameterType::UnsignedShort),
    {
        reveal_strlit("boolean");
        assert("boolean"@ =~= ParameterType::Boolean.wire_name());
        ParameterType::lemma_wire_name_round_trip(ParameterType::Boolean);
        reveal_strlit("dateTime");
        assert("dateTime"@ =~= ParameterType::DateTime.wire_name());
        ParameterType::lemma_wire_name_round_trip(ParameterType::DateTime);
        reveal_strlit("double");
        assert("double"@ =~= ParameterType::Double.wire_name());
        ParameterType::lemma_wire_name_round_trip(ParameterType::Double);
        reveal_strlit("int");
        assert("int"@ =~= ParameterType::Int.wire_name());
        ParameterType::lemma_wire_name_round_trip(ParameterType::Int);
        reveal_strlit("integer");
        assert("integer"@ =~= ParameterType::Integer.wire_name());
        ParameterType::lemma_wire_name_round_trip(ParameterType::Integer);
        reveal_strlit("string");
        assert("string"@ =~= ParameterType::String.wire_name());
        ParameterType::lemma_wire_name_round_trip(ParameterType::String);
        reveal_strlit("unsignedInt");
        assert("unsignedInt"@ =~= ParameterType::UnsignedInt.wire_name());
        ParameterType::lemma_wire_name_round_trip(ParameterType::UnsignedInt);
        reveal_strlit("unsignedShort");
        assert("unsignedShort"@ =~= ParameterType::UnsignedShort.wire_name());
        ParameterType::lemma_wire_name_round_trip(ParameterType::UnsignedShort);
    }

    /// A text that parses to a value is that value's name.
    pub proof fn lemma_parsed_text_is_wire_name(s: Seq<char>)
        ensures
            ParameterType::from_wire_name(s) matches Some(v) ==> v.wire_name() == s,
    {
    }

    /// The name of a value parses back to that value.
    pub proof fn lemma_wire_name_round_trip(v: ParameterType)
        ensures
            ParameterType::from_wire_name(v.wire_name()) == Some(v),
    {
        match v {
            ParameterType::Boolean => {
            },
            ParameterType::DateTime => {
                assert(ParameterType::DateTime.wire_name().len() != ParameterType::Boolean.wire_name().len());
            },
            ParameterType::Double => {
                assert(ParameterType::Double.wire_name().len() != ParameterType::Boolean.wire_name().len());
                assert(ParameterType::Double.wire_name().len() != ParameterType::DateTime.wire_name().len());
            },
            ParameterType::Int => {
                assert(ParameterType::Int.wire_name().len() != ParameterType::Boolean.wire_name().len());
                assert(ParameterType::Int.wire_name().len() != ParameterType::DateTime.wire_name().len());
                assert(ParameterType::Int.wire_name().len() != ParameterType::Double.wire_name().len());
            },
            ParameterType::Integer => {
                assert(ParameterType::Integer.wire_name()[0] != ParameterType::Boolean.wire_name()[0]);
                assert(ParameterType::Integer.wire_name().len() != ParameterType::DateTime.wire_name().len());
                assert(ParameterType::Integer.wire_name().len() != ParameterType::Double.wire_name().len());
                assert(ParameterType::Integer.wire_name().len() != ParameterType::Int.wire_name().len());
            },
            ParameterType::String => {
                assert(ParameterType::String.wire_name().len() != ParameterType::Boolean.wire_name().len());
                assert(ParameterType::String.wire_name().len() != ParameterType::DateTime.wire_name().len());
                assert(ParameterType::String.wire_name()[0] != ParameterType::Double.wire_name()[0]);
                assert(ParameterType::String.wire_name().len() != ParameterType::Int.wire_name().len());
                assert(ParameterType::String.wire_name().len() != ParameterType::Integer.wire_name().len());
            },
            ParameterType::UnsignedInt => {
                assert(ParameterType::UnsignedInt.wire_name().len() != ParameterType::Boolean.wire_name().len());
                assert(ParameterType::UnsignedInt.wire_name().len() != ParameterType::DateTime.wire_name().len());
                assert(ParameterType::UnsignedInt.wire_name().len() != ParameterType::Double.wire_name().len());
                assert(ParameterType::UnsignedInt.wire_name().len() != ParameterType::Int.wire_name().len());
                assert(ParameterType::UnsignedInt.wire_name().len() != ParameterType::Integer.wire_name().len());
                assert(ParameterType::UnsignedInt.wire_name().len() != ParameterType::String.wire_name().len());
            },
            ParameterType::UnsignedShort => {
                assert(ParameterType::UnsignedShort.wire_name().len() != ParameterType::Boolean.wire_name().len());
                assert(ParameterType::UnsignedShort.wire_name().len() != ParameterType::DateTime.wire_name().len());
                assert(ParameterType::UnsignedShort.wire_name().len() != ParameterType::Double.wire_name().len());
                assert(ParameterType::UnsignedShort.wire_name().len() != ParameterType::Int.wire_name().len());
                assert(ParameterType::UnsignedShort.wire_name().len() != ParameterType::Integer.wire_name().len());
                assert(ParameterType::UnsignedShort.wire_name().len() != ParameterType::String.wire_name().len());
                assert(ParameterType::UnsignedShort.wire_name().len() != ParameterType::UnsignedInt.wire_name().len());
            },
        }
    }

}

impl Duplicate for ParameterType {
    open spec fn same(&self, other: &Self) -> bool {
        *self == *other
    }

    fn copied(&self) -> (r: ParameterType) {
        *self
    }
}

impl ParamValue for ParameterType {
    open spec fn accepts(s: Seq<char>) -> bool {
        ParameterType::from_wire_name(s) is Some
    }

    open spec fn denotes(s: Seq<char>, v: ParameterType) -> bool {
        ParameterType::from_wire_name(s) == Some(v)
    }

    open spec fn type_label() -> Seq<char> {
        "ParameterType"@
    }

    fn parse_text(s: &str) -> (r: Option<ParameterType>) {
        match ParameterType::from_wire(s) {
            Ok(v) => Some(v),
            Err(_) => None,
        }
    }

    fn kind_name() -> (r: String) {
        "ParameterType".to_owned()
    }

    proof fn lemma_same_is_equal(a: &Self, b: &Self) {
    }
}

impl std::str::FromStr for ParameterType {
    type Err = String;

    fn from_str(s: &str) -> Result<ParameterType, String> {
        ParameterType::from_wire(s)
    }
}

/// Coordinate system enumeration
#[derive(Debug, Clone, Copy, PartialEq, Eq, Hash)]
pub enum CoordinateSystem {
    Entity,
    Lane,
    Road,
    Trajectory,
    World,
}

impl CoordinateSystem {
    /// The name under which this value is written.
    pub open spec fn wire_name(self) -> Seq<char> {
        match self {
            CoordinateSystem::Entity => seq!['e', 'n', 't', 'i', 't', 'y'],
            CoordinateSystem::Lane => seq!['l', 'a', 'n', 'e'],
            CoordinateSystem::Road => seq!['r', 'o', 'a', 'd'],
            CoordinateSystem::Trajectory => seq!['t', 'r', 'a', 'j', 'e', 'c', 't', 'o', 'r', 'y'],
            CoordinateSystem::World => seq!['w', 'o', 'r', 'l', 'd'],
        }
    }

    /// The value written under `s`, if any.
    pub open spec fn from_wire_name(s: Seq<char>) -> Option<CoordinateSystem> {
        if s == CoordinateSystem::Entity.wire_name() {
            Some(CoordinateSystem::Entity)
        } else if s == CoordinateSystem::Lane.wire_name() {
            Some(CoordinateSystem::Lane)
        } else if s == CoordinateSystem::Road.wire_name() {
            Some(CoordinateSystem::Road)
        } else if s == CoordinateSystem::Trajectory.wire_name() {
            Some(CoordinateSystem::Trajectory)
        } else if s == CoordinateSystem::World.wire_name() {
            Some(CoordinateSystem::World)
        } else {
            None
        }
    }

    /// Every value, in declaration order.
    pub open spec fn all_values() -> Seq<CoordinateSystem> {
        seq![CoordinateSystem::Entity, CoordinateSystem::Lane, CoordinateSystem::Road, CoordinateSystem::Trajectory, CoordinateSystem::World]
    }

    /// The name under which this value is written.
    pub fn as_str(&self) -> (r: &'static str)
        ensures
            r@ == self.wire_name(),
    {
        match self {
            CoordinateSystem::Entity => {
                proof {
                    reveal_strlit("entity");
                }
                "entity"
            },
            CoordinateSystem::Lane => {
                proof {
                    reveal_strlit("lane");
                }
                "lane"
            },
            CoordinateSystem::Road => {
                proof {
                    reveal_strlit("road");
                }
                "road"
            },
            CoordinateSystem::Trajectory => {
                proof {
                    reveal_strlit("trajectory");
                }
                "trajectory"
            },
            CoordinateSystem::World => {
                proof {
                    reveal_strlit("world");
                }
                "world"
            },
        }
    }

    /// The name under which this value is written, as an owned string.
    pub fn to_string(&self) -> (r: String)
        ensures
            r@ == self.wire_name(),
    {
        self.as_str().to_owned()
    }

    /// The value written under `s`; an error message naming `s` when no value is.
    pub fn from_wire(s: &str) -> (r: Result<CoordinateSystem, String>)
        ensures
            match r {
                Ok(v) => CoordinateSystem::from_wire_name(s@) == Some(v),
                Err(m) => CoordinateSystem::from_wire_name(s@) is None && m@ == "Invalid CoordinateSystem: "@ + s@,
            },
    {
        if str_eq(s, CoordinateSystem::Entity.as_str()) {
            return Ok(CoordinateSystem::Entity);
        }
        if str_eq(s, CoordinateSystem::Lane.as_str()) {
            return Ok(CoordinateSystem::Lane);
        }
        if str_eq(s, CoordinateSystem::Road.as_str()) {
            return Ok(CoordinateSystem::Road);
        }
        if str_eq(s, CoordinateSystem::Trajectory.as_str()) {
            return Ok(CoordinateSystem::Trajectory);
        }
        if str_eq(s, CoordinateSystem::World.as_str()) {
            return Ok(CoordinateSystem::World);
        }
        let prefix: String = "Invalid CoordinateSystem: ".to_owned();
        Err(prefix.concat(s))
    }

    /// Every value, in declaration order.
    pub fn all() -> (r: Vec<CoordinateSystem>)
        ensures
            r@ == CoordinateSystem::all_values(),
    {
        let r = vec![CoordinateSystem::Entity, CoordinateSystem::Lane, CoordinateSystem::Road, CoordinateSystem::Trajectory, CoordinateSystem::World];
        assert(r@ =~= CoordinateSystem::all_values());
        r
    }

    /// The written names of the values, as documents write them: each value's name, and
    /// the value that each name is read as.
    pub proof fn lemma_written_names()
        ensures
            CoordinateSystem::Entity.wire_name() == "entity"@,
            CoordinateSystem::from_wire_name("entity"@) == Some(CoordinateSystem::Entity),
            CoordinateSystem::Lane.wire_name() == "lane"@,
            CoordinateSystem::from_wire_name("lane"@) == Some(CoordinateSystem::Lane),
            CoordinateSystem::Road.wire_name() == "road"@,
            CoordinateSystem::from_wire_name("road"@) == Some(CoordinateSystem::Road),
            CoordinateSystem::Trajectory.wire_name() == "trajectory"@,
            CoordinateSystem::from_wire_name("trajectory"@) == Some(CoordinateSystem::Trajectory),
            CoordinateSystem::World.wire_name() == "world"@,
            CoordinateSystem::from_wire_name("world"@) == Some(CoordinateSystem::World),
    {
        reveal_strlit("entity");
        assert("entity"@ =~= CoordinateSystem::Entity.wire_name());
        CoordinateSystem::lemma_wire_name_round_trip(CoordinateSystem::Entity);
        reveal_strlit("lane");
        assert("lane"@ =~= CoordinateSystem::Lane.wire_name());
        CoordinateSystem::lemma_wire_name_round_trip(CoordinateSystem::Lane);
        reveal_strlit("road");
        assert("road"@ =~= CoordinateSystem::Road.wire_name());
        CoordinateSystem::lemma_wire_name_round_trip(CoordinateSystem::Road);
        reveal_strlit("trajectory");
        assert("trajectory"@ =~= CoordinateSystem::Trajectory.wire_name());
        CoordinateSystem::lemma_wire_name_round_trip(CoordinateSystem::Trajectory);
        reveal_strlit("world");
        assert("world"@ =~= CoordinateSystem::World.wire_name());
        CoordinateSystem::lemma_wire_name_round_trip(CoordinateSystem::World);
    }

    /// A text that parses to a value is that value's name.
    pub proof fn lemma_parsed_text_is_wire_name(s: Seq<char>)
        ensures
            CoordinateSystem::from_wire_name(s) matches Some(v) ==> v.wire_name() == s,
    {
    }

    /// The name of a value parses back to that value.
    pub proof fn lemma_wire_name_round_trip(v: CoordinateSystem)
        ensures
            CoordinateSystem::from_wire_name(v.wire_name()) == Some(v),
    {
        match v {
            CoordinateSystem::Entity => {
            },
            CoordinateSystem::Lane => {
                assert(CoordinateSystem::Lane.wire_name().len() != CoordinateSystem::Entity.wire_name().len());
            },
            CoordinateSystem::Road => {
                assert(CoordinateSystem::Road.wire_name().len() != CoordinateSystem::Entity.wire_name().len());
                assert(CoordinateSystem::Road.wire_name()[0] != CoordinateSystem::Lane.wire_name()[0]);
            },
            CoordinateSystem::Trajectory => {
                assert(CoordinateSystem::Trajectory.wire_name().len() != CoordinateSystem::Entity.wire_name().len());
                assert(CoordinateSystem::Trajectory.wire_name().len() != CoordinateSystem::Lane.wire_name().len());
                assert(CoordinateSystem::Trajectory.wire_name().len() != CoordinateSystem::Road.wire_name().len());
            },
            CoordinateSystem::World => {
                assert(CoordinateSystem::World.wire_name().len() != CoordinateSystem::Entity.wire_name().len());
                assert(CoordinateSystem::World.wire_name().len() != CoordinateSystem::Lane.wire_name().len());
                assert(CoordinateSystem::World.wire_name().len() != CoordinateSystem::Road.wire_name().len());
                assert(CoordinateSystem::World.wire_name().len() != CoordinateSystem::Trajectory.wire_name().len());
            },
        }
    }

}

impl Duplicate for CoordinateSystem {
    open spec fn same(&self, other: &Self) -> bool {
        *self == *other
    }

    fn copied(&self) -> (r: CoordinateSystem) {
        *self
    }
}

impl ParamValue for CoordinateSystem {
    open spec fn accepts(s: Seq<char>) -> bool {
        CoordinateSystem::from_wire_name(s) is Some
    }

    open spec fn denotes(s: Seq<char>, v: CoordinateSystem) -> bool {
        CoordinateSystem::from_wire_name(s) == Some(v)
    }

    open spec fn type_label() -> Seq<char> {
        "CoordinateSystem"@
    }

    fn parse_text(s: &str) -> (r: Option<CoordinateSystem>) {
        match CoordinateSystem::from_wire(s) {
            Ok(v) => Some(v),
            Err(_) => None,
        }
    }

    fn kind_name() -> (r: String) {
        "CoordinateSystem".to_owned()
    }

    proof fn lemma_same_is_equal(a: &Self, b: &Self) {
    }
}

impl std::str::FromStr for CoordinateSystem {
    type Err = String;

    fn from_str(s: &str) -> Result<CoordinateSystem, String> {
        CoordinateSystem::from_wire(s)
    }
}

/// Reference context enumeration
#[derive(Debug, Clone, Copy, PartialEq, Eq, Hash)]
pub enum ReferenceContext {
    Relative,
    Absolute,
}

impl ReferenceContext {
    /// The name under which this value is written.
    pub open spec fn wire_name(self) -> Seq<char> {
        match self {
            ReferenceContext::Relative => seq!['r', 'e', 'l', 'a', 't', 'i', 'v', 'e'],
            ReferenceContext::Absolute => seq!['a', 'b', 's', 'o', 'l', 'u', 't', 'e'],
        }
    }

    /// The value written under `s`, if any.
    pub open spec fn from_wire_name(s: Seq<char>) -> Option<ReferenceContext> {
        if s == ReferenceContext::Relative.wire_name() {
            Some(ReferenceContext::Relative)
        } else if s == ReferenceContext::Absolute.wire_name() {
            Some(ReferenceContext::Absolute)
        } else {
            None
        }
    }

    /// Every value, in declaration order.
    pub open spec fn all_values() -> Seq<ReferenceContext> {
        seq![ReferenceContext::Relative, ReferenceContext::Absolute]
    }

    /// The name under which this value is written.
    pub fn as_str(&self) -> (r: &'static str)
        ensures
            r@ == self.wire_name(),
    {
        match self {
            ReferenceContext::Relative => {
                proof {
                    reveal_strlit("relative");
                }
                "relative"
            },
            ReferenceContext::Absolute => {
                proof {
                    reveal_strlit("absolute");
                }
                "absolute"
            },
        }
    }

    /// The name under which this value is written, as an owned string.
    pub fn to_string(&self) -> (r: String)
        ensures
            r@ == self.wire_name(),
    {
        self.as_str().to_owned()
    }

    /// The value written under `s`; an error message naming `s` when no value is.
    pub fn from_wire(s: &str) -> (r: Result<ReferenceContext, String>)
        ensures
            match r {
                Ok(v) => ReferenceContext::from_wire_name(s@) == Some(v),
                Err(m) => ReferenceContext::from_wire_name(s@) is None && m@ == "Invalid ReferenceContext: "@ + s@,
            },
    {
        if str_eq(s, ReferenceContext::Relative.as_str()) {
            return Ok(ReferenceContext::Relative);
        }
        if str_eq(s, ReferenceContext::Absolute.as_str()) {
            return Ok(ReferenceContext::Absolute);
        }
        let prefix: String = "Invalid ReferenceContext: ".to_owned();
        Err(prefix.concat(s))
    }

    /// Every value, in declaration order.
    pub fn all() -> (r: Vec<ReferenceContext>)
        ensures
            r@ == ReferenceContext::all_values(),
    {
        let r = vec![ReferenceContext::Relative, ReferenceContext::Absolute];
        assert(r@ =~= ReferenceContext::all_values());
        r
    }

    /// The written names of the values, as documents write them: each value's name, and
    /// the value that each name is read as.
    pub proof fn lemma_written_names()
        ensures
            ReferenceContext::Relative.wire_name() == "relative"@,
            ReferenceContext::from_wire_name("relative"@) == Some(ReferenceContext::Relative),
            ReferenceContext::Absolute.wire_name() == "absolute"@,
            ReferenceContext::from_wire_name("absolute"@) == Some(ReferenceContext::Absolute),
    {
        reveal_strlit("relative");
        assert("relative"@ =~= ReferenceContext::Relative.wire_name());
        ReferenceContext::lemma_wire_name_round_trip(ReferenceContext::Relative);
        reveal_strlit("absolute");
        assert("absolute"@ =~= ReferenceContext::Absolute.wire_name());
        ReferenceContext::lemma_wire_name_round_trip(ReferenceContext::Absolute);
    }

    /// A text that parses to a value is that value's name.
    pub proof fn lemma_parsed_text_is_wire_name(s: Seq<char>)
        ensures
            ReferenceContext::from_wire_name(s) matches Some(v) ==> v.wire_name() == s,
    {
    }

    /// The name of a value parses back to that value.
    pub proof fn lemma_wire_name_round_trip(v: ReferenceContext)
        ensures
            ReferenceContext::from_wire_name(v.wire_name()) == Some(v),
    {
        match v {
            ReferenceContext::Relative => {
            },
            ReferenceContext::Absolute => {
                assert(ReferenceContext::Absolute.wire_name()[0] != ReferenceContext::Relative.wire_name()[0]);
            },
        }
    }

}

impl Duplicate for ReferenceContext {
    open spec fn same(&self, other: &Self) -> bool {
        *self == *other
    }

    fn copied(&self) -> (r: ReferenceContext) {
        *self
    }
}

impl ParamValue for ReferenceContext {
    open spec fn accepts(s: Seq<char>) -> bool {
        ReferenceContext::from_wire_name(s) is Some
    }

    open spec fn denotes(s: Seq<char>, v: ReferenceContext) -> bool {
        ReferenceContext::from_wire_name(s) == Some(v)
    }

    open spec fn type_label() -> Seq<char> {
        "ReferenceContext"@
    }

    fn parse_text(s: &str) -> (r: Option<ReferenceContext>) {
        match ReferenceContext::from_wire(s) {
            Ok(v) => Some(v),
            Err(_) => None,
        }
    }

    fn kind_name() -> (r: String) {
        "ReferenceContext".to_owned()
    }

    proof fn lemma_same_is_equal(a: &Self, b: &Self) {
    }
}

impl std::str::FromStr for ReferenceContext {
    type Err = String;

    fn from_str(s: &str) -> Result<ReferenceContext, String> {
        ReferenceContext::from_wire(s)
    }
}

/// Speed target value type
#[derive(Debug, Clone, Copy, PartialEq, Eq, Hash)]
pub enum SpeedTargetValueType {
    Delta,
    Factor,
}

impl SpeedTargetValueType {
    /// The name under which this value is written.
    pub open spec fn wire_name(self) -> Seq<char> {
        match self {
            SpeedTargetValueType::Delta => seq!['d', 'e', 'l', 't', 'a'],
            SpeedTargetValueType::Factor => seq!['f', 'a', 'c', 't', 'o', 'r'],
        }
    }

    /// The value written under `s`, if any.
    pub open spec fn from_wire_name(s: Seq<char>) -> Option<SpeedTargetValueType> {
        if s == SpeedTargetValueType::Delta.wire_name() {
            Some(SpeedTargetValueType::Delta)
        } else if s == SpeedTargetValueType::Factor.wire_name() {
            Some(SpeedTargetValueType::Factor)
        } else {
            None
        }
    }

    /// Every value, in declaration order.
    pub open spec fn all_values() -> Seq<SpeedTargetValueType> {
        seq![SpeedTargetValueType::Delta, SpeedTargetValueType::Factor]
    }

    /// The name under which this value is written.
    pub fn as_str(&self) -> (r: &'static str)
        ensures
            r@ == self.wire_name(),
    {
        match self {
            SpeedTargetValueType::Delta => {
                proof {
                    reveal_strlit("delta");
                }
                "delta"
            },
            SpeedTargetValueType::Factor => {
                proof {
                    reveal_strlit("factor");
                }
                "factor"
            },
        }
    }

    /// The name under which this value is written, as an owned string.
    pub fn to_string(&self) -> (r: String)
        ensures
            r@ == self.wire_name(),
    {
        self.as_str().to_owned()
    }

    /// The value written under `s`; an error message naming `s` when no value is.
    pub fn from_wire(s: &str) -> (r: Result<SpeedTargetValueType, String>)
        ensures
            match r {
                Ok(v) => SpeedTargetValueType::from_wire_name(s@) == Some(v),
                Err(m) => SpeedTargetValueType::from_wire_name(s@) is None && m@ == "Invalid SpeedTargetValueType: "@ + s@,
            },
    {
        if str_eq(s, SpeedTargetValueType::Delta.as_str()) {
            return Ok(SpeedTargetValueType::Delta);
        }
        if str_eq(s, SpeedTargetValueType::Factor.as_str()) {
            return Ok(SpeedTargetValueType::Factor);
        }
        let prefix: String = "Invalid SpeedTargetValueType: ".to_owned();
        Err(prefix.concat(s))
    }

    /// Every value, in declaration order.
    pub fn all() -> (r: Vec<SpeedTargetValueType>)
        ensures
            r@ == SpeedTargetValueType::all_values(),
    {
        let r = vec![SpeedTargetValueType::Delta, SpeedTargetValueType::Factor];
        assert(r@ =~= SpeedTargetValueType::all_values());
        r
    }

    /// The written names of the values, as documents write them: each value's name, and
    /// the value that each name is read as.
    pub proof fn lemma_written_names()
        ensures
            SpeedTargetValueType::Delta.wire_name() == "delta"@,
            SpeedTargetValueType::from_wire_name("delta"@) == Some(SpeedTargetValueType::Delta),
            SpeedTargetValueType::Factor.wire_name() == "factor"@,
            SpeedTargetValueType::from_wire_name("factor"@) == Some(SpeedTargetValueType::Factor),
    {
        reveal_strlit("delta");
        assert("delta"@ =~= SpeedTargetValueType::Delta.wire_name());
        SpeedTargetValueType::lemma_wire_name_round_trip(SpeedTargetValueType::Delta);
        reveal_strlit("factor");
        assert("factor"@ =~= SpeedTargetValueType::Factor.wire_name());
        SpeedTargetValueType::lemma_wire_name_round_trip(SpeedTargetValueType::Factor);
    }

    /// A text that parses to a value is that value's name.
    pub proof fn lemma_parsed_text_is_wire_name(s: Seq<char>)
        ensures
            SpeedTargetValueType::from_wire_name(s) matches Some(v) ==> v.wire_name() == s,
    {
    }

    /// The name of a value parses back to that value.
    pub proof fn lemma_wire_name_round_trip(v: SpeedTargetValueType)
        ensures
            SpeedTargetValueType::from_wire_name(v.wire_name()) == Some(v),
    {
        match v {
            SpeedTargetValueType::Delta => {
            },
            SpeedTargetValueType::Factor => {
                assert(SpeedTargetValueType::Factor.wire_name().len() != SpeedTargetValueType::Delta.wire_name().len());
            },
        }
    }

}

impl Duplicate for SpeedTargetValueType {
    open spec fn same(&self, other: &Self) -> bool {
        *self == *other
    }

    fn copied(&self) -> (r: SpeedTargetValueType) {
        *self
    }
}

impl ParamValue for SpeedTargetValueType {
    open spec fn accepts(s: Seq<char>) -> bool {
        SpeedTargetValueType::from_wire_name(s) is Some
    }

    open spec fn denotes(s: Seq<char>, v: SpeedTargetValueType) -> bool {
        SpeedTargetValueType::from_wire_name(s) == Some(v)
    }

    open spec fn type_label() -> Seq<char> {
        "SpeedTargetValueType"@
    }

    fn parse_text(s: &str) -> (r: Option<SpeedTargetValueType>) {
        match SpeedTargetValueType::from_wire(s) {
            Ok(v) => Some(v),
            Err(_) => None,
        }
    }

    fn kind_name() -> (r: String) {
        "SpeedTargetValueType".to_owned()
    }

    proof fn lemma_same_is_equal(a: &Self, b: &Self) {
    }
}

impl std::str::FromStr for SpeedTargetValueType {
    type Err = String;

    fn from_str(s: &str) -> Result<SpeedTargetValueType, String> {
        SpeedTargetValueType::from_wire(s)
    }
}

/// Dynamics shape enumeration
#[derive(Debug, Clone, Copy, PartialEq, Eq, Hash)]
pub enum DynamicsShape {
    Linear,
    Cubic,
    Sinusoidal,
    Step,
}

impl DynamicsShape {
    /// The name under which this value is written.
    pub open spec fn wire_name(self) -> Seq<char> {
        match self {
            DynamicsShape::Linear => seq!['l', 'i', 'n', 'e', 'a', 'r'],
            DynamicsShape::Cubic => seq!['c', 'u', 'b', 'i', 'c'],
            DynamicsShape::Sinusoidal => seq!['s', 'i', 'n', 'u', 's', 'o', 'i', 'd', 'a', 'l'],
            DynamicsShape::Step => seq!['s', 't', 'e', 'p'],
        }
    }

    /// The value written under `s`, if any.
    pub open spec fn from_wire_name(s: Seq<char>) -> Option<DynamicsShape> {
        if s == DynamicsShape::Linear.wire_name() {
            Some(DynamicsShape::Linear)
        } else if s == DynamicsShape::Cubic.wire_name() {
            Some(DynamicsShape::Cubic)
        } else if s == DynamicsShape::Sinusoidal.wire_name() {
            Some(DynamicsShape::Sinusoidal)
        } else if s == DynamicsShape::Step.wire_name() {
            Some(DynamicsShape::Step)
        } else {
            None
        }
    }

    /// Every value, in declaration order.
    pub open spec fn all_values() -> Seq<DynamicsShape> {
        seq![DynamicsShape::Linear, DynamicsShape::Cubic, DynamicsShape::Sinusoidal, DynamicsShape::Step]
    }

    /// The name under which this value is written.
    pub fn as_str(&self) -> (r: &'static str)
        ensures
            r@ == self.wire_name(),
    {
        match self {
            DynamicsShape::Linear => {
                proof {
                    reveal_strlit("linear");
                }
                "linear"
            },
            DynamicsShape::Cubic => {
                proof {
                    reveal_strlit("cubic");
                }
                "cubic"
            },
            DynamicsShape::Sinusoidal => {
                proof {
                    reveal_strlit("sinusoidal");
                }
                "sinusoidal"
            },
            DynamicsShape::Step => {
                proof {
                    reveal_strlit("step");
                }
                "step"
            },
        }
    }

    /// The name under which this value is written, as an owned string.
    pub fn to_string(&self) -> (r: String)
        ensures
            r@ == self.wire_name(),
    {
        self.as_str().to_owned()
    }

    /// The value written under `s`; an error message naming `s` when no value is.
    pub fn from_wire(s: &str) -> (r: Result<DynamicsShape, String>)
        ensures
            match r {
                Ok(v) => DynamicsShape::from_wire_name(s@) == Some(v),
                Err(m) => DynamicsShape::from_wire_name(s@) is None && m@ == "Invalid DynamicsShape: "@ + s@,
            },
    {
        if str_eq(s, DynamicsShape::Linear.as_str()) {
            return Ok(DynamicsShape::Linear);
        }
        if str_eq(s, DynamicsShape::Cubic.as_str()) {
            return Ok(DynamicsShape::Cubic);
        }
        if str_eq(s, DynamicsShape::Sinusoidal.as_str()) {
            return Ok(DynamicsShape::Sinusoidal);
        }
        if str_eq(s, DynamicsShape::Step.as_str()) {
            return Ok(DynamicsShape::Step);
        }
        let prefix: String = "Invalid DynamicsShape: ".to_owned();
        Err(prefix.concat(s))
    }

    /// Every value, in declaration order.
    pub fn all() -> (r: Vec<DynamicsShape>)
        ensures
            r@ == DynamicsShape::all_values(),
    {
        let r = vec![DynamicsShape::Linear, DynamicsShape::Cubic, DynamicsShape::Sinusoidal, DynamicsShape::Step];
        assert(r@ =~= DynamicsShape::all_values());
        r
    }

    /// The written names of the values, as documents write them: each value's name, and
    /// the value that each name is read as.
    pub proof fn lemma_written_names()
        ensures
            DynamicsShape::Linear.wire_name() == "linear"@,
            DynamicsShape::from_wire_name("linear"@) == Some(DynamicsShape::Linear),
            DynamicsShape::Cubic.wire_name() == "cubic"@,
            DynamicsShape::from_wire_name("cubic"@) == Some(DynamicsShape::Cubic),
            DynamicsShape::Sinusoidal.wire_name() == "sinusoidal"@,
            DynamicsShape::from_wire_name("sinusoidal"@) == Some(DynamicsShape::Sinusoidal),
            DynamicsShape::Step.wire_name() == "step"@,
            DynamicsShape::from_wire_name("step"@) == Some(DynamicsShape::Step),
    {
        reveal_strlit("linear");
        assert("linear"@ =~= DynamicsShape::Linear.wire_name());
        DynamicsShape::lemma_wire_name_round_trip(DynamicsShape::Linear);
        reveal_strlit("cubic");
        assert("cubic"@ =~= DynamicsShape::Cubic.wire_name());
        DynamicsShape::lemma_wire_name_round_trip(DynamicsShape::Cubic);
        reveal_strlit("sinusoidal");
        assert("sinusoidal"@ =~= DynamicsShape::Sinusoidal.wire_name());
        DynamicsShape::lemma_wire_name_round_trip(DynamicsShape::Sinusoidal);
        reveal_strlit("step");
        assert("step"@ =~= DynamicsShape::Step.wire_name());
        DynamicsShape::lemma_wire_name_round_trip(DynamicsShape::Step);
    }

    /// A text that parses to a value is that value's name.
    pub proof fn lemma_parsed_text_is_wire_name(s: Seq<char>)
        ensures
            DynamicsShape::from_wire_name(s) matches Some(v) ==> v.wire_name() == s,
    {
    }

    /// The name of a value parses back to that value.
    pub proof fn lemma_wire_name_round_trip(v: DynamicsShape)
        ensures
            DynamicsShape::from_wire_name(v.wire_name()) == Some(v),
    {
        match v {
            DynamicsShape::Linear => {
            },
            DynamicsShape::Cubic => {
                assert(DynamicsShape::Cubic.wire_name().len() != DynamicsShape::Linear.wire_name().len());
            },
            DynamicsShape::Sinusoidal => {
                assert(DynamicsShape::Sinusoidal.wire_name().len() != DynamicsShape::Linear.wire_name().len());
                assert(DynamicsShape::Sinusoidal.wire_name().len() != DynamicsShape::Cubic.wire_name().len());
            },
            DynamicsShape::Step => {
                assert(DynamicsShape::Step.wire_name().len() != DynamicsShape::Linear.wire_name().len());
                assert(DynamicsShape::Step.wire_name().len() != DynamicsShape::Cubic.wire_name().len());
                assert(DynamicsShape::Step.wire_name().len() != DynamicsShape::Sinusoidal.wire_name().len());
            },
        }
    }

}

impl Duplicate for DynamicsShape {
    open spec fn same(&self, other: &Self) -> bool {
        *self == *other
    }

    fn copied(&self) -> (r: DynamicsShape) {
        *self
    }
}

impl ParamValue for DynamicsShape {
    open spec fn accepts(s: Seq<char>) -> bool {
        DynamicsShape::from_wire_name(s) is Some
    }

    open spec fn denotes(s: Seq<char>, v: DynamicsShape) -> bool {
        DynamicsShape::from_wire_name(s) == Some(v)
    }

    open spec fn type_label() -> Seq<char> {
        "DynamicsShape"@
    }

    fn parse_text(s: &str) -> (r: Option<DynamicsShape>) {
        match DynamicsShape::from_wire(s) {
            Ok(v) => Some(v),
            Err(_) => None,
        }
    }

    fn kind_name() -> (r: String) {
        "DynamicsShape".to_owned()
    }

    proof fn lemma_same_is_equal(a: &Self, b: &Self) {
    }
}

impl std::str::FromStr for DynamicsShape {
    type Err = String;

    fn from_str(s: &str) -> Result<DynamicsShape, String> {
        DynamicsShape::from_wire(s)
    }
}

/// Dynamics dimension enumeration
#[derive(Debug, Clone, Copy, PartialEq, Eq, Hash)]
pub enum DynamicsDimension {
    Rate,
    Time,
    Distance,
}

impl DynamicsDimension {
    /// The name under which this value is written.
    pub open spec fn wire_name(self) -> Seq<char> {
        match self {
            DynamicsDimension::Rate => seq!['r', 'a', 't', 'e'],
            DynamicsDimension::Time => seq!['t', 'i', 'm', 'e'],
            DynamicsDimension::Distance => seq!['d', 'i', 's', 't', 'a', 'n', 'c', 'e'],
        }
    }

    /// The value written under `s`, if any.
    pub open spec fn from_wire_name(s: Seq<char>) -> Option<DynamicsDimension> {
        if s == DynamicsDimension::Rate.wire_name() {
            Some(DynamicsDimension::Rate)
        } else if s == DynamicsDimension::Time.wire_name() {
            Some(DynamicsDimension::Time)
        } else if s == DynamicsDimension::Distance.wire_name() {
            Some(DynamicsDimension::Distance)
        } else {
            None
        }
    }

    /// Every value, in declaration order.
    pub open spec fn all_values() -> Seq<DynamicsDimension> {
        seq![DynamicsDimension::Rate, DynamicsDimension::Time, DynamicsDimension::Distance]
    }

    /// The name under which this value is written.
    pub fn as_str(&self) -> (r: &'static str)
        ensures
            r@ == self.wire_name(),
    {
        match self {
            DynamicsDimension::Rate => {
                proof {
                    reveal_strlit("rate");
                }
                "rate"
            },
            DynamicsDimension::Time => {
                proof {
                    reveal_strlit("time");
                }
                "time"
            },
            DynamicsDimension::Distance => {
                proof {
                    reveal_strlit("distance");
                }
                "distance"
            },
        }
    }

    /// The name under which this value is written, as an owned string.
    pub fn to_string(&self) -> (r: String)
        ensures
            r@ == self.wire_name(),
    {
        self.as_str().to_owned()
    }

    /// The value written under `s`; an error message naming `s` when no value is.
    pub fn from_wire(s: &str) -> (r: Result<DynamicsDimension, String>)
        ensures
            match r {
                Ok(v) => DynamicsDimension::from_wire_name(s@) == Some(v),
                Err(m) => DynamicsDimension::from_wire_name(s@) is None && m@ == "Invalid DynamicsDimension: "@ + s@,
            },
    {
        if str_eq(s, DynamicsDimension::Rate.as_str()) {
            return Ok(DynamicsDimension::Rate);
        }
        if str_eq(s, DynamicsDimension::Time.as_str()) {
            return Ok(DynamicsDimension::Time);
        }
        if str_eq(s, DynamicsDimension::Distance.as_str()) {
            return Ok(DynamicsDimension::Distance);
        }
        let prefix: String = "Invalid DynamicsDimension: ".to_owned();
        Err(prefix.concat(s))
    }

    /// Every value, in declaration order.
    pub fn all() -> (r: Vec<DynamicsDimension>)
        ensures
            r@ == DynamicsDimension::all_values(),
    {
        let r = vec![DynamicsDimension::Rate, DynamicsDimension::Time, DynamicsDimension::Distance];
        assert(r@ =~= DynamicsDimension::all_values());
        r
    }

    /// The written names of the values, as documents write them: each value's name, and
    /// the value that each name is read as.
    pub proof fn lemma_written_names()
        ensures
            DynamicsDimension::Rate.wire_name() == "rate"@,
            DynamicsDimension::from_wire_name("rate"@) == Some(DynamicsDimension::Rate),
            DynamicsDimension::Time.wire_name() == "time"@,
            DynamicsDimension::from_wire_name("time"@) == Some(DynamicsDimension::Time),
            DynamicsDimension::Distance.wire_name() == "distance"@,
            DynamicsDimension::from_wire_name("distance"@) == Some(DynamicsDimension::Distance),
    {
        reveal_strlit("rate");
        assert("rate"@ =~= DynamicsDimension::Rate.wire_name());
        DynamicsDimension::lemma_wire_name_round_trip(DynamicsDimension::Rate);
        reveal_strlit("time");
        assert("time"@ =~= DynamicsDimension::Time.wire_name());
        DynamicsDimension::lemma_wire_name_round_trip(DynamicsDimension::Time);
        reveal_strlit("distance");
        assert("distance"@ =~= DynamicsDimension::Distance.wire_name());
        DynamicsDimension::lemma_wire_name_round_trip(DynamicsDimension::Distance);
    }

    /// A text that parses to a value is that value's name.
    pub proof fn lemma_parsed_text_is_wire_name(s: Seq<char>)
        ensures
            DynamicsDimension::from_wire_name(s) matches Some(v) ==> v.wire_name() == s,
    {
    }

    /// The name of a value parses back to that value.
    pub proof fn lemma_wire_name_round_trip(v: DynamicsDimension)
        ensures
            DynamicsDimension::from_wire_name(v.wire_name()) == Some(v),
    {
        match v {
            DynamicsDimension::Rate => {
            },
            DynamicsDimension::Time => {
                assert(DynamicsDimension::Time.wire_name()[0] != DynamicsDimension::Rate.wire_name()[0]);
            },
            DynamicsDimension::Distance => {
                assert(DynamicsDimension::Distance.wire_name().len() != DynamicsDimension::Rate.wire_name().len());
                assert(DynamicsDimension::Distance.wire_name().len() != DynamicsDimension::Time.wire_name().len());
            },
        }
    }

}

impl Duplicate for DynamicsDimension {
    open spec fn same(&self, other: &Self) -> bool {
        *self == *other
    }

    fn copied(&self) -> (r: DynamicsDimension) {
        *self
    }
}

impl ParamValue for DynamicsDimension {
    open spec fn accepts(s: Seq<char>) -> bool {
        DynamicsDimension::from_wire_name(s) is Some
    }

    open spec fn denotes(s: Seq<char>, v: DynamicsDimension) -> bool {
        DynamicsDimension::from_wire_name(s) == Some(v)
    }

    open spec fn type_label() -> Seq<char> {
        "DynamicsDimension"@
    }

    fn parse_text(s: &str) -> (r: Option<DynamicsDimension>) {
        match DynamicsDimension::from_wire(s) {
            Ok(v) => Some(v),
            Err(_) => None,
        }
    }

    fn kind_name() -> (r: String) {
        "DynamicsDimension".to_owned()
    }

    proof fn lemma_same_is_equal(a: &Self, b: &Self) {
    }
}

impl std::str::FromStr for DynamicsDimension {
    type Err = String;

    fn from_str(s: &str) -> Result<DynamicsDimension, String> {
        DynamicsDimension::from_wire(s)
    }
}

/// Relative distance type enumeration
#[derive(Debug, Clone, Copy, PartialEq, Eq, Hash)]
pub enum RelativeDistanceType {
    Longitudinal,
    Lateral,
    Cartesian,
    Euclidian,
}

impl RelativeDistanceType {
    /// The name under which this value is written.
    pub open spec fn wire_name(self) -> Seq<char> {
        match self {
            RelativeDistanceType::Longitudinal => seq!['l', 'o', 'n', 'g', 'i', 't', 'u', 'd', 'i', 'n', 'a', 'l'],
            RelativeDistanceType::Lateral => seq!['l', 'a', 't', 'e', 'r', 'a', 'l'],
            RelativeDistanceType::Cartesian => seq!['c', 'a', 'r', 't', 'e', 's', 'i', 'a', 'n', 'D', 'i', 's', 't', 'a', 'n', 'c', 'e'],
            RelativeDistanceType::Euclidian => seq!['e', 'u', 'c', 'l', 'i', 'd', 'i', 'a', 'n', 'D', 'i', 's', 't', 'a', 'n', 'c', 'e'],
        }
    }

    /// The value written under `s`, if any.
    pub open spec fn from_wire_name(s: Seq<char>) -> Option<RelativeDistanceType> {
        if s == RelativeDistanceType::Longitudinal.wire_name() {
            Some(RelativeDistanceType::Longitudinal)
        } else if s == RelativeDistanceType::Lateral.wire_name() {
            Some(RelativeDistanceType::Lateral)
        } else if s == RelativeDistanceType::Cartesian.wire_name() {
            Some(RelativeDistanceType::Cartesian)
        } else if s == RelativeDistanceType::Euclidian.wire_name() {
            Some(RelativeDistanceType::Euclidian)
        } else {
            None
        }
    }

    /// Every value, in declaration order.
    pub open spec fn all_values() -> Seq<RelativeDistanceType> {
        seq![RelativeDistanceType::Longitudinal, RelativeDistanceType::Lateral, RelativeDistanceType::Cartesian, RelativeDistanceType::Euclidian]
    }

    /// The name under which this value is written.
    pub fn as_str(&self) -> (r: &'static str)
        ensures
            r@ == self.wire_name(),
    {
        match self {
            RelativeDistanceType::Longitudinal => {
                proof {
                    reveal_strlit("longitudinal");
                }
                "longitudinal"
            },
            RelativeDistanceType::Lateral => {
                proof {
                    reveal_strlit("lateral");
                }
                "lateral"
            },
            RelativeDistanceType::Cartesian => {
                proof {
                    reveal_strlit("cartesianDistance");
                }
                "cartesianDistance"
            },
            RelativeDistanceType::Euclidian => {
                proof {
                    reveal_strlit("euclidianDistance");
                }
                "euclidianDistance"
            },
        }
    }

    /// The name under which this value is written, as an owned string.
    pub fn to_string(&self) -> (r: String)
        ensures
            r@ == self.wire_name(),
    {
        self.as_str().to_owned()
    }

    /// The value written under `s`; an error message naming `s` when no value is.
    pub fn from_wire(s: &str) -> (r: Result<RelativeDistanceType, String>)
        ensures
            match r {
                Ok(v) => RelativeDistanceType::from_wire_name(s@) == Some(v),
                Err(m) => RelativeDistanceType::from_wire_name(s@) is None && m@ == "Invalid RelativeDistanceType: "@ + s@,
            },
    {
        if str_eq(s, RelativeDistanceType::Longitudinal.as_str()) {
            return Ok(RelativeDistanceType::Longitudinal);
        }
        if str_eq(s, RelativeDistanceType::Lateral.as_str()) {
            return Ok(RelativeDistanceType::Lateral);
        }
        if str_eq(s, RelativeDistanceType::Cartesian.as_str()) {
            return Ok(RelativeDistanceType::Cartesian);
        }
        if str_eq(s, RelativeDistanceType::Euclidian.as_str()) {
            return Ok(RelativeDistanceType::Euclidian);
        }
        let prefix: String = "Invalid RelativeDistanceType: ".to_owned();
        Err(prefix.concat(s))
    }

    /// Every value, in declaration order.
    pub fn all() -> (r: Vec<RelativeDistanceType>)
        ensures
            r@ == RelativeDistanceType::all_values(),
    {
        let r = vec![RelativeDistanceType::Longitudinal, RelativeDistanceType::Lateral, RelativeDistanceType::Cartesian, RelativeDistanceType::Euclidian];
        assert(r@ =~= RelativeDistanceType::all_values());
        r
    }

    /// The written names of the values, as documents write them: each value's name, and
    /// the value that each name is read as.
    pub proof fn lemma_written_names()
        ensures
            RelativeDistanceType::Longitudinal.wire_name() == "longitudinal"@,
            RelativeDistanceType::from_wire_name("longitudinal"@) == Some(RelativeDistanceType::Longitudinal),
            RelativeDistanceType::Lateral.wire_name() == "lateral"@,
            RelativeDistanceType::from_wire_name("lateral"@) == Some(RelativeDistanceType::Lateral),
            RelativeDistanceType::Cartesian.wire_name() == "cartesianDistance"@,
            RelativeDistanceType::from_wire_name("cartesianDistance"@) == Some(RelativeDistanceType::Cartesian),
            RelativeDistanceType::Euclidian.wire_name() == "euclidianDistance"@,
            RelativeDistanceType::from_wire_name("euclidianDistance"@) == Some(RelativeDistanceType::Euclidian),
    {
        reveal_strlit("longitudinal");
        assert("longitudinal"@ =~= RelativeDistanceType::Longitudinal.wire_name());
        RelativeDistanceType::lemma_wire_name_round_trip(RelativeDistanceType::Longitudinal);
        reveal_strlit("lateral");
        assert("lateral"@ =~= RelativeDistanceType::Lateral.wire_name());
        RelativeDistanceType::lemma_wire_name_round_trip(RelativeDistanceType::Lateral);
        reveal_strlit("cartesianDistance");
        assert("cartesianDistance"@ =~= RelativeDistanceType::Cartesian.wire_name());
        RelativeDistanceType::lemma_wire_name_round_trip(RelativeDistanceType::Cartesian);
        reveal_strlit("euclidianDistance");
        assert("euclidianDistance"@ =~= RelativeDistanceType::Euclidian.wire_name());
        RelativeDistanceType::lemma_wire_name_round_trip(RelativeDistanceType::Euclidian);
    }

    /// A text that parses to a value is that value's name.
    pub proof fn lemma_parsed_text_is_wire_name(s: Seq<char>)
        ensures
            RelativeDistanceType::from_wire_name(s) matches Some(v) ==> v.wire_name() == s,
    {
    }

    /// The name of a value parses back to that value.
    pub proof fn lemma_wire_name_round_trip(v: RelativeDistanceType)
        ensures
            RelativeDistanceType::from_wire_name(v.wire_name()) == Some(v),
    {
        match v {
            RelativeDistanceType::Longitudinal => {
            },
            RelativeDistanceType::Lateral => {
                assert(RelativeDistanceType::Lateral.wire_name().len() != RelativeDistanceType::Longitudinal.wire_name().len());
            },
            RelativeDistanceType::Cartesian => {
                assert(RelativeDistanceType::Cartesian.wire_name().len() != RelativeDistanceType::Longitudinal.wire_name().len());
                assert(RelativeDistanceType::Cartesian.wire_name().len() != RelativeDistanceType::Lateral.wire_name().len());
            },
            RelativeDistanceType::Euclidian => {
                assert(RelativeDistanceType::Euclidian.wire_name().len() != RelativeDistanceType::Longitudinal.wire_name().len());
                assert(RelativeDistanceType::Euclidian.wire_name().len() != RelativeDistanceType::Lateral.wire_name().len());
                assert(RelativeDistanceType::Euclidian.wire_name()[0] != RelativeDistanceType::Cartesian.wire_name()[0]);
            },
        }
    }

}

impl Duplicate for RelativeDistanceType {
    open spec fn same(&self, other: &Self) -> bool {
        *self == *other
    }

    fn copied(&self) -> (r: RelativeDistanceType) {
        *self
    }
}

impl ParamValue for RelativeDistanceType {
    open spec fn accepts(s: Seq<char>) -> bool {
        RelativeDistanceType::from_wire_name(s) is Some
    }

    open spec fn denotes(s: Seq<char>, v: RelativeDistanceType) -> bool {
        RelativeDistanceType::from_wire_name(s) == Some(v)
    }

    open spec fn type_label() -> Seq<char> {
        "RelativeDistanceType"@
    }

    fn parse_text(s: &str) -> (r: Option<RelativeDistanceType>) {
        match RelativeDistanceType::from_wire(s) {
            Ok(v) => Some(v),
            Err(_) => None,
        }
    }

    fn kind_name() -> (r: String) {
        "RelativeDistanceType".to_owned()
    }

    proof fn lemma_same_is_equal(a: &Self, b: &Self) {
    }
}

impl std::str::FromStr for RelativeDistanceType {
    type Err = String;

    fn from_str(s: &str) -> Result<RelativeDistanceType, String> {
        RelativeDistanceType::from_wire(s)
    }
}

/// Following mode enumeration
#[derive(Debug, Clone, Copy, PartialEq, Eq, Hash)]
pub enum FollowingMode {
    Position,
    Follow,
}

impl FollowingMode {
    /// The name under which this value is written.
    pub open spec fn wire_name(self) -> Seq<char> {
        match self {
            FollowingMode::Position => seq!['p', 'o', 's', 'i', 't', 'i', 'o', 'n'],
            FollowingMode::Follow => seq!['f', 'o', 'l', 'l', 'o', 'w'],
        }
    }

    /// The value written under `s`, if any.
    pub open spec fn from_wire_name(s: Seq<char>) -> Option<FollowingMode> {
        if s == FollowingMode::Position.wire_name() {
            Some(FollowingMode::Position)
        } else if s == FollowingMode::Follow.wire_name() {
            Some(FollowingMode::Follow)
        } else {
            None
        }
    }

    /// Every value, in declaration order.
    pub open spec fn all_values() -> Seq<FollowingMode> {
        seq![FollowingMode::Position, FollowingMode::Follow]
    }

    /// The name under which this value is written.
    pub fn as_str(&self) -> (r: &'static str)
        ensures
            r@ == self.wire_name(),
    {
        match self {
            FollowingMode::Position => {
                proof {
                    reveal_strlit("position");
                }
                "position"
            },
            FollowingMode::Follow => {
                proof {
                    reveal_strlit("follow");
                }
                "follow"
            },
        }
    }

    /// The name under which this value is written, as an owned string.
    pub fn to_string(&self) -> (r: String)
        ensures
            r@ == self.wire_name(),
    {
        self.as_str().to_owned()
    }

    /// The value written under `s`; an error message naming `s` when no value is.
    pub fn from_wire(s: &str) -> (r: Result<FollowingMode, String>)
        ensures
            match r {
                Ok(v) => FollowingMode::from_wire_name(s@) == Some(v),
                Err(m) => FollowingMode::from_wire_name(s@) is None && m@ == "Invalid FollowingMode: "@ + s@,
            },
    {
        if str_eq(s, FollowingMode::Position.as_str()) {
            return Ok(FollowingMode::Position);
        }
        if str_eq(s, FollowingMode::Follow.as_str()) {
            return Ok(FollowingMode::Follow);
        }
        let prefix: String = "Invalid FollowingMode: ".to_owned();
        Err(prefix.concat(s))
    }

    /// Every value, in declaration order.
    pub fn all() -> (r: Vec<FollowingMode>)
        ensures
            r@ == FollowingMode::all_values(),
    {
        let r = vec![FollowingMode::Position, FollowingMode::Follow];
        assert(r@ =~= FollowingMode::all_values());
        r
    }

    /// The written names of the values, as documents write them: each value's name, and
    /// the value that each name is read as.
    pub proof fn lemma_written_names()
        ensures
            FollowingMode::Position.wire_name() == "position"@,
            FollowingMode::from_wire_name("position"@) == Some(FollowingMode::Position),
            FollowingMode::Follow.wire_name() == "follow"@,
            FollowingMode::from_wire_name("follow"@) == Some(FollowingMode::Follow),
    {
        reveal_strlit("position");
        assert("position"@ =~= FollowingMode::Position.wire_name());
        FollowingMode::lemma_wire_name_round_trip(FollowingMode::Position);
        reveal_strlit("follow");
        assert("follow"@ =~= FollowingMode::Follow.wire_name());
        FollowingMode::lemma_wire_name_round_trip(FollowingMode::Follow);
    }

    /// A text that parses to a value is that value's name.
    pub proof fn lemma_parsed_text_is_wire_name(s: Seq<char>)
        ensures
            FollowingMode::from_wire_name(s) matches Some(v) ==> v.wire_name() == s,
    {
    }

    /// The name of a value parses back to that value.
    pub proof fn lemma_wire_name_round_trip(v: FollowingMode)
        ensures
            FollowingMode::from_wire_name(v.wire_name()) == Some(v),
    {
        match v {
            FollowingMode::Position => {
            },
            FollowingMode::Follow => {
                assert(FollowingMode::Follow.wire_name().len() != FollowingMode::Position.wire_name().len());
            },
        }
    }

}

impl Duplicate for FollowingMode {
    open spec fn same(&self, other: &Self) -> bool {
        *self == *other
    }

    fn copied(&self) -> (r: FollowingMode) {
        *self
    }
}

impl ParamValue for FollowingMode {
    open spec fn accepts(s: Seq<char>) -> bool {
        FollowingMode::from_wire_name(s) is Some
    }

    open spec fn denotes(s: Seq<char>, v: FollowingMode) -> bool {
        FollowingMode::from_wire_name(s) == Some(v)
    }

    open spec fn type_label() -> Seq<char> {
        "FollowingMode"@
    }

    fn parse_text(s: &str) -> (r: Option<FollowingMode>) {
        match FollowingMode::from_wire(s) {
            Ok(v) => Some(v),
            Err(_) => None,
        }
    }

    fn kind_name() -> (r: String) {
        "FollowingMode".to_owned()
    }

    proof fn lemma_same_is_equal(a: &Self, b: &Self) {
    }
}

impl std::str::FromStr for FollowingMode {
    type Err = String;

    fn from_str(s: &str) -> Result<FollowingMode, String> {
        FollowingMode::from_wire(s)
    }
}

/// Miscellaneous object category enumeration
#[derive(Debug, Clone, Copy, PartialEq, Eq, Hash)]
pub enum MiscObjectCategory {
    Barrier,
    Building,
    Crosswalk,
    Gantry,
    NoCategory,
    Obstacle,
    ParkingSpace,
    Patch,
    Pole,
    Railing,
    RoadMark,
    SoundBarrier,
    StreetLamp,
    TrafficIsland,
    Tree,
    Vegetation,
    Wind,
}

impl MiscObjectCategory {
    /// The name under which this value is written.
    pub open spec fn wire_name(self) -> Seq<char> {
        match self {
            MiscObjectCategory::Barrier => seq!['b', 'a', 'r', 'r', 'i', 'e', 'r'],
            MiscObjectCategory::Building => seq!['b', 'u', 'i', 'l', 'd', 'i', 'n', 'g'],
            MiscObjectCategory::Crosswalk => seq!['c', 'r', 'o', 's', 's', 'w', 'a', 'l', 'k'],
            MiscObjectCategory::Gantry => seq!['g', 'a', 'n', 't', 'r', 'y'],
            MiscObjectCategory::NoCategory => seq!['n', 'o', 'n', 'e'],
            MiscObjectCategory::Obstacle => seq!['o', 'b', 's', 't', 'a', 'c', 'l', 'e'],
            MiscObjectCategory::ParkingSpace => seq!['p', 'a', 'r', 'k', 'i', 'n', 'g', 'S', 'p', 'a', 'c', 'e'],
            MiscObjectCategory::Patch => seq!['p', 'a', 't', 'c', 'h'],
            MiscObjectCategory::Pole => seq!['p', 'o', 'l', 'e'],
            MiscObjectCategory::Railing => seq!['r', 'a', 'i', 'l', 'i', 'n', 'g'],
            MiscObjectCategory::RoadMark => seq!['r', 'o', 'a', 'd', 'M', 'a', 'r', 'k'],
            MiscObjectCategory::SoundBarrier => seq!['s', 'o', 'u', 'n', 'd', 'B', 'a', 'r', 'r', 'i', 'e', 'r'],
            MiscObjectCategory::StreetLamp => seq!['s', 't', 'r', 'e', 'e', 't', 'L', 'a', 'm', 'p'],
            MiscObjectCategory::TrafficIsland => seq!['t', 'r', 'a', 'f', 'f', 'i', 'c', 'I', 's', 'l', 'a', 'n', 'd'],
            MiscObjectCategory::Tree => seq!['t', 'r', 'e', 'e'],
            MiscObjectCategory::Vegetation => seq!['v', 'e', 'g', 'e', 't', 'a', 't', 'i', 'o', 'n'],
            MiscObjectCategory::Wind => seq!['w', 'i', 'n', 'd'],
        }
    }

    /// The value written under `s`, if any.
    pub open spec fn from_wire_name(s: Seq<char>) -> Option<MiscObjectCategory> {
        if s == MiscObjectCategory::Barrier.wire_name() {
            Some(MiscObjectCategory::Barrier)
        } else if s == MiscObjectCategory::Building.wire_name() {
            Some(MiscObjectCategory::Building)
        } else if s == MiscObjectCategory::Crosswalk.wire_name() {
            Some(MiscObjectCategory::Crosswalk)
        } else if s == MiscObjectCategory::Gantry.wire_name() {
            Some(MiscObjectCategory::Gantry)
        } else if s == MiscObjectCategory::NoCategory.wire_name() {
            Some(MiscObjectCategory::NoCategory)
        } else if s == MiscObjectCategory::Obstacle.wire_name() {
            Some(MiscObjectCategory::Obstacle)
        } else if s == MiscObjectCategory::ParkingSpace.wire_name() {
            Some(MiscObjectCategory::ParkingSpace)
        } else if s == MiscObjectCategory::Patch.wire_name() {
            Some(MiscObjectCategory::Patch)
        } else if s == MiscObjectCategory::Pole.wire_name() {
            Some(MiscObjectCategory::Pole)
        } else if s == MiscObjectCategory::Railing.wire_name() {
            Some(MiscObjectCategory::Railing)
        } else if s == MiscObjectCategory::RoadMark.wire_name() {
            Some(MiscObjectCategory::RoadMark)
        } else if s == MiscObjectCategory::SoundBarrier.wire_name() {
            Some(MiscObjectCategory::SoundBarrier)
        } else if s == MiscObjectCategory::StreetLamp.wire_name() {
            Some(MiscObjectCategory::StreetLamp)
        } else if s == MiscObjectCategory::TrafficIsland.wire_name() {
            Some(MiscObjectCategory::TrafficIsland)
        } else if s == MiscObjectCategory::Tree.wire_name() {
            Some(MiscObjectCategory::Tree)
        } else if s == MiscObjectCategory::Vegetation.wire_name() {
            Some(MiscObjectCategory::Vegetation)
        } else if s == MiscObjectCategory::Wind.wire_name() {
            Some(MiscObjectCategory::Wind)
        } else {
            None
        }
    }

    /// Every value, in declaration order.
    pub open spec fn all_values() -> Seq<MiscObjectCategory> {
        seq![MiscObjectCategory::Barrier, MiscObjectCategory::Building, MiscObjectCategory::Crosswalk, MiscObjectCategory::Gantry, MiscObjectCategory::NoCategory, MiscObjectCategory::Obstacle, MiscObjectCategory::ParkingSpace, MiscObjectCategory::Patch, MiscObjectCategory::Pole, MiscObjectCategory::Railing, MiscObjectCategory::RoadMark, MiscObjectCategory::SoundBarrier, MiscObjectCategory::StreetLamp, MiscObjectCategory::TrafficIsland, MiscObjectCategory::Tree, MiscObjectCategory::Vegetation, MiscObjectCategory::Wind]
    }

    /// The name under which this value is written.
    pub fn as_str(&self) -> (r: &'static str)
        ensures
            r@ == self.wire_name(),
    {
        match self {
            MiscObjectCategory::Barrier => {
                proof {
                    reveal_strlit("barrier");
                }
                "barrier"
            },
            MiscObjectCategory::Building => {
                proof {
                    reveal_strlit("building");
                }
                "building"
            },
            MiscObjectCategory::Crosswalk => {
                proof {
                    reveal_strlit("crosswalk");
                }
                "crosswalk"
            },
            MiscObjectCategory::Gantry => {
                proof {
                    reveal_strlit("gantry");
                }
                "gantry"
            },
            MiscObjectCategory::NoCategory => {
                proof {
                    reveal_strlit("none");
                }
                "none"
            },
            MiscObjectCategory::Obstacle => {
                proof {
                    reveal_strlit("obstacle");
                }
                "obstacle"
            },
            MiscObjectCategory::ParkingSpace => {
                proof {
                    reveal_strlit("parkingSpace");
                }
                "parkingSpace"
            },
            MiscObjectCategory::Patch => {
                proof {
                    reveal_strlit("patch");
                }
                "patch"
            },
            MiscObjectCategory::Pole => {
                proof {
                    reveal_strlit("pole");
                }
                "pole"
            },
            MiscObjectCategory::Railing => {
                proof {
                    reveal_strlit("railing");
                }
                "railing"
            },
            MiscObjectCategory::RoadMark => {
                proof {
                    reveal_strlit("roadMark");
                }
                "roadMark"
            },
            MiscObjectCategory::SoundBarrier => {
                proof {
                    reveal_strlit("soundBarrier");
                }
                "soundBarrier"
            },
            MiscObjectCategory::StreetLamp => {
                proof {
                    reveal_strlit("streetLamp");
                }
                "streetLamp"
            },
            MiscObjectCategory::TrafficIsland => {
                proof {
                    reveal_strlit("trafficIsland");
                }
                "trafficIsland"
            },
            MiscObjectCategory::Tree => {
                proof {
                    reveal_strlit("tree");
                }
                "tree"
            },
            MiscObjectCategory::Vegetation => {
                proof {
                    reveal_strlit("vegetation");
                }
                "vegetation"
            },
            MiscObjectCategory::Wind => {
                proof {
                    reveal_strlit("wind");
                }
                "wind"
            },
        }
    }

    /// The name under which this value is written, as an owned string.
    pub fn to_string(&self) -> (r: String)
        ensures
            r@ == self.wire_name(),
    {
        self.as_str().to_owned()
    }

    /// The value written under `s`; an error message naming `s` when no value is.
    pub fn from_wire(s: &str) -> (r: Result<MiscObjectCategory, String>)
        ensures
            match r {
                Ok(v) => MiscObjectCategory::from_wire_name(s@) == Some(v),
                Err(m) => MiscObjectCategory::from_wire_name(s@) is None && m@ == "Invalid MiscObjectCategory: "@ + s@,
            },
    {
        if str_eq(s, MiscObjectCategory::Barrier.as_str()) {
            return Ok(MiscObjectCategory::Barrier);
        }
        if str_eq(s, MiscObjectCategory::Building.as_str()) {
            return Ok(MiscObjectCategory::Building);
        }
        if str_eq(s, MiscObjectCategory::Crosswalk.as_str()) {
            return Ok(MiscObjectCategory::Crosswalk);
        }
        if str_eq(s, MiscObjectCategory::Gantry.as_str()) {
            return Ok(MiscObjectCategory::Gantry);
        }
        if str_eq(s, MiscObjectCategory::NoCategory.as_str()) {
            return Ok(MiscObjectCategory::NoCategory);
        }
        if str_eq(s, MiscObjectCategory::Obstacle.as_str()) {
            return Ok(MiscObjectCategory::Obstacle);
        }
        if str_eq(s, MiscObjectCategory::ParkingSpace.as_str()) {
            return Ok(MiscObjectCategory::ParkingSpace);
        }
        if str_eq(s, MiscObjectCategory::Patch.as_str()) {
            return Ok(MiscObjectCategory::Patch);
        }
        if str_eq(s, MiscObjectCategory::Pole.as_str()) {
            return Ok(MiscObjectCategory::Pole);
        }
        if str_eq(s, MiscObjectCategory::Railing.as_str()) {
            return Ok(MiscObjectCategory::Railing);
        }
        if str_eq(s, MiscObjectCategory::RoadMark.as_str()) {
            return Ok(MiscObjectCategory::RoadMark);
        }
        if str_eq(s, MiscObjectCategory::SoundBarrier.as_str()) {
            return Ok(MiscObjectCategory::SoundBarrier);
        }
        if str_eq(s, MiscObjectCategory::StreetLamp.as_str()) {
            return Ok(MiscObjectCategory::StreetLamp);
        }
        if str_eq(s, MiscObjectCategory::TrafficIsland.as_str()) {
            return Ok(MiscObjectCategory::TrafficIsland);
        }
        if str_eq(s, MiscObjectCategory::Tree.as_str()) {
            return Ok(MiscObjectCategory::Tree);
        }
        if str_eq(s, MiscObjectCategory::Vegetation.as_str()) {
            return Ok(MiscObjectCategory::Vegetation);
        }
        if str_eq(s, MiscObjectCategory::Wind.as_str()) {
            return Ok(MiscObjectCategory::Wind);
        }
        let prefix: String = "Invalid MiscObjectCategory: ".to_owned();
        Err(prefix.concat(s))
    }

    /// Every value, in declaration order.
    pub fn all() -> (r: Vec<MiscObjectCategory>)
        ensures
            r@ == MiscObjectCategory::all_values(),
    {
        let r = vec![MiscObjectCategory::Barrier, MiscObjectCategory::Building, MiscObjectCategory::Crosswalk, MiscObjectCategory::Gantry, MiscObjectCategory::NoCategory, MiscObjectCategory::Obstacle, MiscObjectCategory::ParkingSpace, MiscObjectCategory::Patch, MiscObjectCategory::Pole, MiscObjectCategory::Railing, MiscObjectCategory::RoadMark, MiscObjectCategory::SoundBarrier, MiscObjectCategory::StreetLamp, MiscObjectCategory::TrafficIsland, MiscObjectCategory::Tree, MiscObjectCategory::Vegetation, MiscObjectCategory::Wind];
        assert(r@ =~= MiscObjectCategory::all_values());
        r
    }

    /// The written names of the values, as documents write them: each value's name, and
    /// the value that each name is read as.
    pub proof fn lemma_written_names()
        ensures
            MiscObjectCategory::Barrier.wire_name() == "barrier"@,
            MiscObjectCategory::from_wire_name("barrier"@) == Some(MiscObjectCategory::Barrier),
            MiscObjectCategory::Building.wire_name() == "building"@,
            MiscObjectCategory::from_wire_name("building"@) == Some(MiscObjectCategory::Building),
            MiscObjectCategory::Crosswalk.wire_name() == "crosswalk"@,
            MiscObjectCategory::from_wire_name("crosswalk"@) == Some(MiscObjectCategory::Crosswalk),
            MiscObjectCategory::Gantry.wire_name() == "gantry"@,
            MiscObjectCategory::from_wire_name("gantry"@) == Some(MiscObjectCategory::Gantry),
            MiscObjectCategory::NoCategory.wire_name() == "none"@,
            MiscObjectCategory::from_wire_name("none"@) == Some(MiscObjectCategory::NoCategory),
            MiscObjectCategory::Obstacle.wire_name() == "obstacle"@,
            MiscObjectCategory::from_wire_name("obstacle"@) == Some(MiscObjectCategory::Obstacle),
            MiscObjectCategory::ParkingSpace.wire_name() == "parkingSpace"@,
            MiscObjectCategory::from_wire_name("parkingSpace"@) == Some(MiscObjectCategory::ParkingSpace),
            MiscObjectCategory::Patch.wire_name() == "patch"@,
            MiscObjectCategory::from_wire_name("patch"@) == Some(MiscObjectCategory::Patch),
            MiscObjectCategory::Pole.wire_name() == "pole"@,
            MiscObjectCategory::from_wire_name("pole"@) == Some(MiscObjectCategory::Pole),
            MiscObjectCategory::Railing.wire_name() == "railing"@,
            MiscObjectCategory::from_wire_name("railing"@) == Some(MiscObjectCategory::Railing),
            MiscObjectCategory::RoadMark.wire_name() == "roadMark"@,
            MiscObjectCategory::from_wire_name("roadMark"@) == Some(MiscObjectCategory::RoadMark),
            MiscObjectCategory::SoundBarrier.wire_name() == "soundBarrier"@,
            MiscObjectCategory::from_wire_name("soundBarrier"@) == Some(MiscObjectCategory::SoundBarrier),
            MiscObjectCategory::StreetLamp.wire_name() == "streetLamp"@,
            MiscObjectCategory::from_wire_name("streetLamp"@) == Some(MiscObjectCategory::StreetLamp),
            MiscObjectCategory::TrafficIsland.wire_name() == "trafficIsland"@,
            MiscObjectCategory::from_wire_name("trafficIsland"@) == Some(MiscObjectCategory::TrafficIsland),
            MiscObjectCategory::Tree.wire_name() == "tree"@,
            MiscObjectCategory::from_wire_name("tree"@) == Some(MiscObjectCategory::Tree),
            MiscObjectCategory::Vegetation.wire_name() == "vegetation"@,
            MiscObjectCategory::from_wire_name("vegetation"@) == Some(MiscObjectCategory::Vegetation),
            MiscObjectCategory::Wind.wire_name() == "wind"@,
            MiscObjectCategory::from_wire_name("wind"@) == Some(MiscObjectCategory::Wind),
    {
        reveal_strlit("barrier");
        assert("barrier"@ =~= MiscObjectCategory::Barrier.wire_name());
        MiscObjectCategory::lemma_wire_name_round_trip(MiscObjectCategory::Barrier);
        reveal_strlit("building");
        assert("building"@ =~= MiscObjectCategory::Building.wire_name());
        MiscObjectCategory::lemma_wire_name_round_trip(MiscObjectCategory::Building);
        reveal_strlit("crosswalk");
        assert("crosswalk"@ =~= MiscObjectCategory::Crosswalk.wire_name());
        MiscObjectCategory::lemma_wire_name_round_trip(MiscObjectCategory::Crosswalk);
        reveal_strlit("gantry");
        assert("gantry"@ =~= MiscObjectCategory::Gantry.wire_name());
        MiscObjectCategory::lemma_wire_name_round_trip(MiscObjectCategory::Gantry);
        reveal_strlit("none");
        assert("none"@ =~= MiscObjectCategory::NoCategory.wire_name());
        MiscObjectCategory::lemma_wire_name_round_trip(MiscObjectCategory::NoCategory);
        reveal_strlit("obstacle");
        assert("obstacle"@ =~= MiscObjectCategory::Obstacle.wire_name());
        MiscObjectCategory::lemma_wire_name_round_trip(MiscObjectCategory::Obstacle);
        reveal_strlit("parkingSpace");
        assert("parkingSpace"@ =~= MiscObjectCategory::ParkingSpace.wire_name());
        MiscObjectCategory::lemma_wire_name_round_trip(MiscObjectCategory::ParkingSpace);
        reveal_strlit("patch");
        assert("patch"@ =~= MiscObjectCategory::Patch.wire_name());
        MiscObjectCategory::lemma_wire_name_round_trip(MiscObjectCategory::Patch);
        reveal_strlit("pole");
        assert("pole"@ =~= MiscObjectCategory::Pole.wire_name());
        MiscObjectCategory::lemma_wire_name_round_trip(MiscObjectCategory::Pole);
        reveal_strlit("railing");
        assert("railing"@ =~= MiscObjectCategory::Railing.wire_name());
        MiscObjectCategory::lemma_wire_name_round_trip(MiscObjectCategory::Railing);
        reveal_strlit("roadMark");
        assert("roadMark"@ =~= MiscObjectCategory::RoadMark.wire_name());
        MiscObjectCategory::lemma_wire_name_round_trip(MiscObjectCategory::RoadMark);
        reveal_strlit("soundBarrier");
        assert("soundBarrier"@ =~= MiscObjectCategory::SoundBarrier.wire_name());
        MiscObjectCategory::lemma_wire_name_round_trip(MiscObjectCategory::SoundBarrier);
        reveal_strlit("streetLamp");
        assert("streetLamp"@ =~= MiscObjectCategory::StreetLamp.wire_name());
        MiscObjectCategory::lemma_wire_name_round_trip(MiscObjectCategory::StreetLamp);
        reveal_strlit("trafficIsland");
        assert("trafficIsland"@ =~= MiscObjectCategory::TrafficIsland.wire_name());
        MiscObjectCategory::lemma_wire_name_round_trip(MiscObjectCategory::TrafficIsland);
        reveal_strlit("tree");
        assert("tree"@ =~= MiscObjectCategory::Tree.wire_name());
        MiscObjectCategory::lemma_wire_name_round_trip(MiscObjectCategory::Tree);
        reveal_strlit("vegetation");
        assert("vegetation"@ =~= MiscObjectCategory::Vegetation.wire_name());
        MiscObjectCategory::lemma_wire_name_round_trip(MiscObjectCategory::Vegetation);
        reveal_strlit("wind");
        assert("wind"@ =~= MiscObjectCategory::Wind.wire_name());
        MiscObjectCategory::lemma_wire_name_round_trip(MiscObjectCategory::Wind);
    }

    /// A text that parses to a value is that value's name.
    pub proof fn lemma_parsed_text_is_wire_name(s: Seq<char>)
        ensures
            MiscObjectCategory::from_wire_name(s) matches Some(v) ==> v.wire_name() == s,
    {
    }

    /// The name of a value parses back to that value.
    pub proof fn lemma_wire_name_round_trip(v: MiscObjectCategory)
        ensures
            MiscObjectCategory::from_wire_name(v.wire_name()) == Some(v),
    {
        match v {
            MiscObjectCategory::Barrier => {
            },
            MiscObjectCategory::Building => {
                assert(MiscObjectCategory::Building.wire_name().len() != MiscObjectCategory::Barrier.wire_name().len());
            },
            MiscObjectCategory::Crosswalk => {
                assert(MiscObjectCategory::Crosswalk.wire_name().len() != MiscObjectCategory::Barrier.wire_name().len());
                assert(MiscObjectCategory::Crosswalk.wire_name().len() != MiscObjectCategory::Building.wire_name().len());
            },
            MiscObjectCategory::Gantry => {
                assert(MiscObjectCategory::Gantry.wire_name().len() != MiscObjectCategory::Barrier.wire_name().len());
                assert(MiscObjectCategory::Gantry.wire_name().len() != MiscObjectCategory::Building.wire_name().len());
                assert(MiscObjectCategory::Gantry.wire_name().len() != MiscObjectCategory::Crosswalk.wire_name().len());
            },
            MiscObjectCategory::NoCategory => {
                assert(MiscObjectCategory::NoCategory.wire_name().len() != MiscObjectCategory::Barrier.wire_name().len());
                assert(MiscObjectCategory::NoCategory.wire_name().len() != MiscObjectCategory::Building.wire_name().len());
                assert(MiscObjectCategory::NoCategory.wire_name().len() != MiscObjectCategory::Crosswalk.wire_name().len());
                assert(MiscObjectCategory::NoCategory.wire_name().len() != MiscObjectCategory::Gantry.wire_name().len());
            },
            MiscObjectCategory::Obstacle => {
                assert(MiscObjectCategory::Obstacle.wire_name().len() != MiscObjectCategory::Barrier.wire_name().len());
                assert(MiscObjectCategory::Obstacle.wire_name()[0] != MiscObjectCategory::Building.wire_name()[0]);
                assert(MiscObjectCategory::Obstacle.wire_name().len() != MiscObjectCategory::Crosswalk.wire_name().len());
                assert(MiscObjectCategory::Obstacle.wire_name().len() != MiscObjectCategory::Gantry.wire_name().len());
                assert(MiscObjectCategory::Obstacle.wire_name().len() != MiscObjectCategory::NoCategory.wire_name().len());
            },
            MiscObjectCategory::ParkingSpace => {
                assert(MiscObjectCategory::ParkingSpace.wire_name().len() != MiscObjectCategory::Barrier.wire_name().len());
                assert(MiscObjectCategory::ParkingSpace.wire_name().len() != MiscObjectCategory::Building.wire_name().len());
                assert(MiscObjectCategory::ParkingSpace.wire_name().len() != MiscObjectCategory::Crosswalk.wire_name().len());
                assert(MiscObjectCategory::ParkingSpace.wire_name().len() != MiscObjectCategory::Gantry.wire_name().len());
                assert(MiscObjectCategory::ParkingSpace.wire_name().len() != MiscObjectCategory::NoCategory.wire_name().len());
                assert(MiscObjectCategory::ParkingSpace.wire_name().len() != MiscObjectCategory::Obstacle.wire_name().len());
            },
            MiscObjectCategory::Patch => {
                assert(MiscObjectCategory::Patch.wire_name().len() != MiscObjectCategory::Barrier.wire_name().len());
                assert(MiscObjectCategory::Patch.wire_name().len() != MiscObjectCategory::Building.wire_name().len());
                assert(MiscObjectCategory::Patch.wire_name().len() != MiscObjectCategory::Crosswalk.wire_name().len());
                assert(MiscObjectCategory::Patch.wire_name().len() != MiscObjectCategory::Gantry.wire_name().len());
                assert(MiscObjectCategory::Patch.wire_name().len() != MiscObjectCategory::NoCategory.wire_name().len());
                assert(MiscObjectCategory::Patch.wire_name().len() != MiscObjectCategory::Obstacle.wire_name().len());
                assert(MiscObjectCategory::Patch.wire_name().len() != MiscObjectCategory::ParkingSpace.wire_name().len());
            },
            MiscObjectCategory::Pole => {
                assert(MiscObjectCategory::Pole.wire_name().len() != MiscObjectCategory::Barrier.wire_name().len());
                assert(MiscObjectCategory::Pole.wire_name().len() != MiscObjectCategory::Building.wire_name().len());
                assert(MiscObjectCategory::Pole.wire_name().len() != MiscObjectCategory::Crosswalk.wire_name().len());
                assert(MiscObjectCategory::Pole.wire_name().len() != MiscObjectCategory::Gantry.wire_name().len());
                assert(MiscObjectCategory::Pole.wire_name()[0] != MiscObjectCategory::NoCategory.wire_name()[0]);
                assert(MiscObjectCategory::Pole.wire_name().len() != MiscObjectCategory::Obstacle.wire_name().len());
                assert(MiscObjectCategory::Pole.wire_name().len() != MiscObjectCategory::ParkingSpace.wire_name().len());
                assert(MiscObjectCategory::Pole.wire_name().len() != MiscObjectCategory::Patch.wire_name().len());
            },
            MiscObjectCategory::Railing => {
                assert(MiscObjectCategory::Railing.wire_name()[0] != MiscObjectCategory::Barrier.wire_name()[0]);
                assert(MiscObjectCategory::Railing.wire_name().len() != MiscObjectCategory::Building.wire_name().len());
                assert(MiscObjectCategory::Railing.wire_name().len() != MiscObjectCategory::Crosswalk.wire_name().len());
                assert(MiscObjectCategory::Railing.wire_name().len() != MiscObjectCategory::Gantry.wire_name().len());
                assert(MiscObjectCategory::Railing.wire_name().len() != MiscObjectCategory::NoCategory.wire_name().len());
                assert(MiscObjectCategory::Railing.wire_name().len() != MiscObjectCategory::Obstacle.wire_name().len());
                assert(MiscObjectCategory::Railing.wire_name().len() != MiscObjectCategory::ParkingSpace.wire_name().len());
                assert(MiscObjectCategory::Railing.wire_name().len() != MiscObjectCategory::Patch.wire_name().len());
                assert(MiscObjectCategory::Railing.wire_name().len() != MiscObjectCategory::Pole.wire_name().len());
            },
            MiscObjectCategory::RoadMark => {
                assert(MiscObjectCategory::RoadMark.wire_name().len() != MiscObjectCategory::Barrier.wire_name().len());
                assert(MiscObjectCategory::RoadMark.wire_name()[0] != MiscObjectCategory::Building.wire_name()[0]);
                assert(MiscObjectCategory::RoadMark.wire_name().len() != MiscObjectCategory::Crosswalk.wire_name().len());
                assert(MiscObjectCategory::RoadMark.wire_name().len() != MiscObjectCategory::Gantry.wire_name().len());
                assert(MiscObjectCategory::RoadMark.wire_name().len() != MiscObjectCategory::NoCategory.wire_name().len());
                assert(MiscObjectCategory::RoadMark.wire_name()[0] != MiscObjectCategory::Obstacle.wire_name()[0]);
                assert(MiscObjectCategory::RoadMark.wire_name().len() != MiscObjectCategory::ParkingSpace.wire_name().len());
                assert(MiscObjectCategory::RoadMark.wire_name().len() != MiscObjectCategory::Patch.wire_name().len());
                assert(MiscObjectCategory::RoadMark.wire_name().len() != MiscObjectCategory::Pole.wire_name().len());
                assert(MiscObjectCategory::RoadMark.wire_name().len() != MiscObjectCategory::Railing.wire_name().len());
            },
            MiscObjectCategory::SoundBarrier => {
                assert(MiscObjectCategory::SoundBarrier.wire_name().len() != MiscObjectCategory::Barrier.wire_name().len());
                assert(MiscObjectCategory::SoundBarrier.wire_name().len() != MiscObjectCategory::Building.wire_name().len());
                assert(MiscObjectCategory::SoundBarrier.wire_name().len() != MiscObjectCategory::Crosswalk.wire_name().len());
                assert(MiscObjectCategory::SoundBarrier.wire_name().len() != MiscObjectCategory::Gantry.wire_name().len());
                assert(MiscObjectCategory::SoundBarrier.wire_name().len() != MiscObjectCategory::NoCategory.wire_name().len());
                assert(MiscObjectCategory::SoundBarrier.wire_name().len() != MiscObjectCategory::Obstacle.wire_name().len());
                assert(MiscObjectCategory::SoundBarrier.wire_name()[0] != MiscObjectCategory::ParkingSpace.wire_name()[0]);
                assert(MiscObjectCategory::SoundBarrier.wire_name().len() != MiscObjectCategory::Patch.wire_name().len());
                assert(MiscObjectCategory::SoundBarrier.wire_name().len() != MiscObjectCategory::Pole.wire_name().len());
                assert(MiscObjectCategory::SoundBarrier.wire_name().len() != MiscObjectCategory::Railing.wire_name().len());
                assert(MiscObjectCategory::SoundBarrier.wire_name().len() != MiscObjectCategory::RoadMark.wire_name().len());
            },
            MiscObjectCategory::StreetLamp => {
                assert(MiscObjectCategory::StreetLamp.wire_name().len() != MiscObjectCategory::Barrier.wire_name().len());
                assert(MiscObjectCategory::StreetLamp.wire_name().len() != MiscObjectCategory::Building.wire_name().len());
                assert(MiscObjectCategory::StreetLamp.wire_name().len() != MiscObjectCategory::Crosswalk.wire_name().len());
                assert(MiscObjectCategory::StreetLamp.wire_name().len() != MiscObjectCategory::Gantry.wire_name().len());
                assert(MiscObjectCategory::StreetLamp.wire_name().len() != MiscObjectCategory::NoCategory.wire_name().len());
                assert(MiscObjectCategory::StreetLamp.wire_name().len() != MiscObjectCategory::Obstacle.wire_name().len());
                assert(MiscObjectCategory::StreetLamp.wire_name().len() != MiscObjectCategory::ParkingSpace.wire_name().len());
                assert(MiscObjectCategory::StreetLamp.wire_name().len() != MiscObjectCategory::Patch.wire_name().len());
                assert(MiscObjectCategory::StreetLamp.wire_name().len() != MiscObjectCategory::Pole.wire_name().len());
                assert(MiscObjectCategory::StreetLamp.wire_name().len() != MiscObjectCategory::Railing.wire_name().len());
                assert(MiscObjectCategory::StreetLamp.wire_name().len() != MiscObjectCategory::RoadMark.wire_name().len());
                assert(MiscObjectCategory::StreetLamp.wire_name().len() != MiscObjectCategory::SoundBarrier.wire_name().len());
            },
            MiscObjectCategory::TrafficIsland => {
                assert(MiscObjectCategory::TrafficIsland.wire_name().len() != MiscObjectCategory::Barrier.wire_name().len());
                assert(MiscObjectCategory::TrafficIsland.wire_name().len() != MiscObjectCategory::Building.wire_name().len());
                assert(MiscObjectCategory::TrafficIsland.wire_name().len() != MiscObjectCategory::Crosswalk.wire_name().len());
                assert(MiscObjectCategory::TrafficIsland.wire_name().len() != MiscObjectCategory::Gantry.wire_name().len());
                assert(MiscObjectCategory::TrafficIsland.wire_name().len() != MiscObjectCategory::NoCategory.wire_name().len());
                assert(MiscObjectCategory::TrafficIsland.wire_name().len() != MiscObjectCategory::Obstacle.wire_name().len());
                assert(MiscObjectCategory::TrafficIsland.wire_name().len() != MiscObjectCategory::ParkingSpace.wire_name().len());
                assert(MiscObjectCategory::TrafficIsland.wire_name().len() != MiscObjectCategory::Patch.wire_name().len());
                assert(MiscObjectCategory::TrafficIsland.wire_name().len() != MiscObjectCategory::Pole.wire_name().len());
                assert(MiscObjectCategory::TrafficIsland.wire_name().len() != MiscObjectCategory::Railing.wire_name().len());
                assert(MiscObjectCategory::TrafficIsland.wire_name().len() != MiscObjectCategory::RoadMark.wire_name().len());
                assert(MiscObjectCategory::TrafficIsland.wire_name().len() != MiscObjectCategory::SoundBarrier.wire_name().len());
                assert(MiscObjectCategory::TrafficIsland.wire_name().len() != MiscObjectCategory::StreetLamp.wire_name().len());
            },
            MiscObjectCategory::Tree => {
                assert(MiscObjectCategory::Tree.wire_name().len() != MiscObjectCategory::Barrier.wire_name().len());
                assert(MiscObjectCategory::Tree.wire_name().len() != MiscObjectCategory::Building.wire_name().len());
                assert(MiscObjectCategory::Tree.wire_name().len() != MiscObjectCategory::Crosswalk.wire_name().len());
                assert(MiscObjectCategory::Tree.wire_name().len() != MiscObjectCategory::Gantry.wire_name().len());
                assert(MiscObjectCategory::Tree.wire_name()[0] != MiscObjectCategory::NoCategory.wire_name()[0]);
                assert(MiscObjectCategory::Tree.wire_name().len() != MiscObjectCategory::Obstacle.wire_name().len());
                assert(MiscObjectCategory::Tree.wire_name().len() != MiscObjectCategory::ParkingSpace.wire_name().len());
                assert(MiscObjectCategory::Tree.wire_name().len() != MiscObjectCategory::Patch.wire_name().len());
                assert(MiscObjectCategory::Tree.wire_name()[0] != MiscObjectCategory::Pole.wire_name()[0]);
                assert(MiscObjectCategory::Tree.wire_name().len() != MiscObjectCategory::Railing.wire_name().len());
                assert(MiscObjectCategory::Tree.wire_name().len() != MiscObjectCategory::RoadMark.wire_name().len());
                assert(MiscObjectCategory::Tree.wire_name().len() != MiscObjectCategory::SoundBarrier.wire_name().len());
                assert(MiscObjectCategory::Tree.wire_name().len() != MiscObjectCategory::StreetLamp.wire_name().len());
                assert(MiscObjectCategory::Tree.wire_name().len() != MiscObjectCategory::TrafficIsland.wire_name().len());
            },
            MiscObjectCategory::Vegetation => {
                assert(MiscObjectCategory::Vegetation.wire_name().len() != MiscObjectCategory::Barrier.wire_name().len());
                assert(MiscObjectCategory::Vegetation.wire_name().len() != MiscObjectCategory::Building.wire_name().len());
                assert(MiscObjectCategory::Vegetation.wire_name().len() != MiscObjectCategory::Crosswalk.wire_name().len());
                assert(MiscObjectCategory::Vegetation.wire_name().len() != MiscObjectCategory::Gantry.wire_name().len());
                assert(MiscObjectCategory::Vegetation.wire_name().len() != MiscObjectCategory::NoCategory.wire_name().len());
                assert(MiscObjectCategory::Vegetation.wire_name().len() != MiscObjectCategory::Obstacle.wire_name().len());
                assert(MiscObjectCategory::Vegetation.wire_name().len() != MiscObjectCategory::ParkingSpace.wire_name().len());
                assert(MiscObjectCategory::Vegetation.wire_name().len() != MiscObjectCategory::Patch.wire_name().len());
                assert(MiscObjectCategory::Vegetation.wire_name().len() != MiscObjectCategory::Pole.wire_name().len());
                assert(MiscObjectCategory::Vegetation.wire_name().len() != MiscObjectCategory::Railing.wire_name().len());
                assert(MiscObjectCategory::Vegetation.wire_name().len() != MiscObjectCategory::RoadMark.wire_name().len());
                assert(MiscObjectCategory::Vegetation.wire_name().len() != MiscObjectCategory::SoundBarrier.wire_name().len());
                assert(MiscObjectCategory::Vegetation.wire_name()[0] != MiscObjectCategory::StreetLamp.wire_name()[0]);
                assert(MiscObjectCategory::Vegetation.wire_name().len() != MiscObjectCategory::TrafficIsland.wire_name().len());
                assert(MiscObjectCategory::Vegetation.wire_name().len() != MiscObjectCategory::Tree.wire_name().len());
            },
            MiscObjectCategory::Wind => {
                assert(MiscObjectCategory::Wind.wire_name().len() != MiscObjectCategory::Barrier.wire_name().len());
                assert(MiscObjectCategory::Wind.wire_name().len() != MiscObjectCategory::Building.wire_name().len());
                assert(MiscObjectCategory::Wind.wire_name().len() != MiscObjectCategory::Crosswalk.wire_name().len());
                assert(MiscObjectCategory::Wind.wire_name().len() != MiscObjectCategory::Gantry.wire_name().len());
                assert(MiscObjectCategory::Wind.wire_name()[0] != MiscObjectCategory::NoCategory.wire_name()[0]);
                assert(MiscObjectCategory::Wind.wire_name().len() != MiscObjectCategory::Obstacle.wire_name().len());
                assert(MiscObjectCategory::Wind.wire_name().len() != MiscObjectCategory::ParkingSpace.wire_name().len());
                assert(MiscObjectCategory::Wind.wire_name().len() != MiscObjectCategory::Patch.wire_name().len());
                assert(MiscObjectCategory::Wind.wire_name()[0] != MiscObjectCategory::Pole.wire_name()[0]);
                assert(MiscObjectCategory::Wind.wire_name().len() != MiscObjectCategory::Railing.wire_name().len());
                assert(MiscObjectCategory::Wind.wire_name().len() != MiscObjectCategory::RoadMark.wire_name().len());
                assert(MiscObjectCategory::Wind.wire_name().len() != MiscObjectCategory::SoundBarrier.wire_name().len());
                assert(MiscObjectCategory::Wind.wire_name().len() != MiscObjectCategory::StreetLamp.wire_name().len());
                assert(MiscObjectCategory::Wind.wire_name().len() != MiscObjectCategory::TrafficIsland.wire_name().len());
                assert(MiscObjectCategory::Wind.wire_name()[0] != MiscObjectCategory::Tree.wire_name()[0]);
                assert(MiscObjectCategory::Wind.wire_name().len() != MiscObjectCategory::Vegetation.wire_name().len());
            },
        }
    }

}

impl Duplicate for MiscObjectCategory {
    open spec fn same(&self, other: &Self) -> bool {
        *self == *other
    }

    fn copied(&self) -> (r: MiscObjectCategory) {
        *self
    }
}

impl ParamValue for MiscObjectCategory {
    open spec fn accepts(s: Seq<char>) -> bool {
        MiscObjectCategory::from_wire_name(s) is Some
    }

    open spec fn denotes(s: Seq<char>, v: MiscObjectCategory) -> bool {
        MiscObjectCategory::from_wire_name(s) == Some(v)
    }

    open spec fn type_label() -> Seq<char> {
        "MiscObjectCategory"@
    }

    fn parse_text(s: &str) -> (r: Option<MiscObjectCategory>) {
        match MiscObjectCategory::from_wire(s) {
            Ok(v) => Some(v),
            Err(_) => None,
        }
    }

    fn kind_name() -> (r: String) {
        "MiscObjectCategory".to_owned()
    }

    proof fn lemma_same_is_equal(a: &Self, b: &Self) {
    }
}

impl std::str::FromStr for MiscObjectCategory {
    type Err = String;

    fn from_str(s: &str) -> Result<MiscObjectCategory, String> {
        MiscObjectCategory::from_wire(s)
    }
}

/// Controller type enumeration
#[derive(Debug, Clone, Copy, PartialEq, Eq, Hash)]
pub enum ControllerType {
    Lateral,
    Longitudinal,
    Lighting,
    Animation,
    Movement,
    Appearance,
    All,
}

impl ControllerType {
    /// The name under which this value is written.
    pub open spec fn wire_name(self) -> Seq<char> {
        match self {
            ControllerType::Lateral => seq!['l', 'a', 't', 'e', 'r', 'a', 'l'],
            ControllerType::Longitudinal => seq!['l', 'o', 'n', 'g', 'i', 't', 'u', 'd', 'i', 'n', 'a', 'l'],
            ControllerType::Lighting => seq!['l', 'i', 'g', 'h', 't', 'i', 'n', 'g'],
            ControllerType::Animation => seq!['a', 'n', 'i', 'm', 'a', 't', 'i', 'o', 'n'],
            ControllerType::Movement => seq!['m', 'o', 'v', 'e', 'm', 'e', 'n', 't'],
            ControllerType::Appearance => seq!['a', 'p', 'p', 'e', 'a', 'r', 'a', 'n', 'c', 'e'],
            ControllerType::All => seq!['a', 'l', 'l'],
        }
    }

    /// The value written under `s`, if any.
    pub open spec fn from_wire_name(s: Seq<char>) -> Option<ControllerType> {
        if s == ControllerType::Lateral.wire_name() {
            Some(ControllerType::Lateral)
        } else if s == ControllerType::Longitudinal.wire_name() {
            Some(ControllerType::Longitudinal)
        } else if s == ControllerType::Lighting.wire_name() {
            Some(ControllerType::Lighting)
        } else if s == ControllerType::Animation.wire_name() {
            Some(ControllerType::Animation)
        } else if s == ControllerType::Movement.wire_name() {
            Some(ControllerType::Movement)
        } else if s == ControllerType::Appearance.wire_name() {
            Some(ControllerType::Appearance)
        } else if s == ControllerType::All.wire_name() {
            Some(ControllerType::All)
        } else {
            None
        }
    }

    /// Every value, in declaration order.
    pub open spec fn all_values() -> Seq<ControllerType> {
        seq![ControllerType::Lateral, ControllerType::Longitudinal, ControllerType::Lighting, ControllerType::Animation, ControllerType::Movement, ControllerType::Appearance, ControllerType::All]
    }

    /// The name under which this value is written.
    pub fn as_str(&self) -> (r: &'static str)
        ensures
            r@ == self.wire_name(),
    {
        match self {
            ControllerType::Lateral => {
                proof {
                    reveal_strlit("lateral");
                }
                "lateral"
            },
            ControllerType::Longitudinal => {
                proof {
                    reveal_strlit("longitudinal");
                }
                "longitudinal"
            },
            ControllerType::Lighting => {
                proof {
                    reveal_strlit("lighting");
                }
                "lighting"
            },
            ControllerType::Animation => {
                proof {
                    reveal_strlit("animation");
                }
                "animation"
            },
            ControllerType::Movement => {
                proof {
                    reveal_strlit("movement");
                }
                "movement"
            },
            ControllerType::Appearance => {
                proof {
                    reveal_strlit("appearance");
                }
                "appearance"
            },
            ControllerType::All => {
                proof {
                    reveal_strlit("all");
                }
                "all"
            },
        }
    }

    /// The name under which this value is written, as an owned string.
    pub fn to_string(&self) -> (r: String)
        ensures
            r@ == self.wire_name(),
    {
        self.as_str().to_owned()
    }

    /// The value written under `s`; an error message naming `s` when no value is.
    pub fn from_wire(s: &str) -> (r: Result<ControllerType, String>)
        ensures
            match r {
                Ok(v) => ControllerType::from_wire_name(s@) == Some(v),
                Err(m) => ControllerType::from_wire_name(s@) is None && m@ == "Invalid ControllerType: "@ + s@,
            },
    {
        if str_eq(s, ControllerType::Lateral.as_str()) {
            return Ok(ControllerType::Lateral);
        }
        if str_eq(s, ControllerType::Longitudinal.as_str()) {
            return Ok(ControllerType::Longitudinal);
        }
        if str_eq(s, ControllerType::Lighting.as_str()) {
            return Ok(ControllerType::Lighting);
        }
        if str_eq(s, ControllerType::Animation.as_str()) {
            return Ok(ControllerType::Animation);
        }
        if str_eq(s, ControllerType::Movement.as_str()) {
            return Ok(ControllerType::Movement);
        }
        if str_eq(s, ControllerType::Appearance.as_str()) {
            return Ok(ControllerType::Appearance);
        }
        if str_eq(s, ControllerType::All.as_str()) {
            return Ok(ControllerType::All);
        }
        let prefix: String = "Invalid ControllerType: ".to_owned();
        Err(prefix.concat(s))
    }

    /// Every value, in declaration order.
    pub fn all() -> (r: Vec<ControllerType>)
        ensures
            r@ == ControllerType::all_values(),
    {
        let r = vec![ControllerType::Lateral, ControllerType::Longitudinal, ControllerType::Lighting, ControllerType::Animation, ControllerType::Movement, ControllerType::Appearance, ControllerType::All];
        assert(r@ =~= ControllerType::all_values());
        r
    }

    /// The written names of the values, as documents write them: each value's name, and
    /// the value that each name is read as.
    pub proof fn lemma_written_names()
        ensures
            ControllerType::Lateral.wire_name() == "lateral"@,
            ControllerType::from_wire_name("lateral"@) == Some(ControllerType::Lateral),
            ControllerType::Longitudinal.wire_name() == "longitudinal"@,
            ControllerType::from_wire_name("longitudinal"@) == Some(ControllerType::Longitudinal),
            ControllerType::Lighting.wire_name() == "lighting"@,
            ControllerType::from_wire_name("lighting"@) == Some(ControllerType::Lighting),
            ControllerType::Animation.wire_name() == "animation"@,
            ControllerType::from_wire_name("animation"@) == Some(ControllerType::Animation),
            ControllerType::Movement.wire_name() == "movement"@,
            ControllerType::from_wire_name("movement"@) == Some(ControllerType::Movement),
            ControllerType::Appearance.wire_name() == "appearance"@,
            ControllerType::from_wire_name("appearance"@) == Some(ControllerType::Appearance),
            ControllerType::All.wire_name() == "all"@,
            ControllerType::from_wire_name("all"@) == Some(ControllerType::All),
    {
        reveal_strlit("lateral");
        assert("lateral"@ =~= ControllerType::Lateral.wire_name());
        ControllerType::lemma_wire_name_round_trip(ControllerType::Lateral);
        reveal_strlit("longitudinal");
        assert("longitudinal"@ =~= ControllerType::Longitudinal.wire_name());
        ControllerType::lemma_wire_name_round_trip(ControllerType::Longitudinal);
        reveal_strlit("lighting");
        assert("lighting"@ =~= ControllerType::Lighting.wire_name());
        ControllerType::lemma_wire_name_round_trip(ControllerType::Lighting);
        reveal_strlit("animation");
        assert("animation"@ =~= ControllerType::Animation.wire_name());
        ControllerType::lemma_wire_name_round_trip(ControllerType::Animation);
        reveal_strlit("movement");
        assert("movement"@ =~= ControllerType::Movement.wire_name());
        ControllerType::lemma_wire_name_round_trip(ControllerType::Movement);
        reveal_strlit("appearance");
        assert("appearance"@ =~= ControllerType::Appearance.wire_name());
        ControllerType::lemma_wire_name_round_trip(ControllerType::Appearance);
        reveal_strlit("all");
        assert("all"@ =~= ControllerType::All.wire_name());
        ControllerType::lemma_wire_name_round_trip(ControllerType::All);
    }

    /// A text that parses to a value is that value's name.
    pub proof fn lemma_parsed_text_is_wire_name(s: Seq<char>)
        ensures
            ControllerType::from_wire_name(s) matches Some(v) ==> v.wire_name() == s,
    {
    }

    /// The name of a value parses back to that value.
    pub proof fn lemma_wire_name_round_trip(v: ControllerType)
        ensures
            ControllerType::from_wire_name(v.wire_name()) == Some(v),
    {
        match v {
            ControllerType::Lateral => {
            },
            ControllerType::Longitudinal => {
                assert(ControllerType::Longitudinal.wire_name().len() != ControllerType::Lateral.wire_name().len());
            },
            ControllerType::Lighting => {
                assert(ControllerType::Lighting.wire_name().len() != ControllerType::Lateral.wire_name().len());
                assert(ControllerType::Lighting.wire_name().len() != ControllerType::Longitudinal.wire_name().len());
            },
            ControllerType::Animation => {
                assert(ControllerType::Animation.wire_name().len() != ControllerType::Lateral.wire_name().len());
                assert(ControllerType::Animation.wire_name().len() != ControllerType::Longitudinal.wire_name().len());
                assert(ControllerType::Animation.wire_name().len() != ControllerType::Lighting.wire_name().len());
            },
            ControllerType::Movement => {
                assert(ControllerType::Movement.wire_name().len() != ControllerType::Lateral.wire_name().len());
                assert(ControllerType::Movement.wire_name().len() != ControllerType::Longitudinal.wire_name().len());
                assert(ControllerType::Movement.wire_name()[0] != ControllerType::Lighting.wire_name()[0]);
                assert(ControllerType::Movement.wire_name().len() != ControllerType::Animation.wire_name().len());
            },
            ControllerType::Appearance => {
                assert(ControllerType::Appearance.wire_name().len() != ControllerType::Lateral.wire_name().len());
                assert(ControllerType::Appearance.wire_name().len() != ControllerType::Longitudinal.wire_name().len());
                assert(ControllerType::Appearance.wire_name().len() != ControllerType::Lighting.wire_name().len());
                assert(ControllerType::Appearance.wire_name().len() != ControllerType::Animation.wire_name().len());
                assert(ControllerType::Appearance.wire_name().len() != ControllerType::Movement.wire_name().len());
            },
            ControllerType::All => {
                assert(ControllerType::All.wire_name().len() != ControllerType::Lateral.wire_name().len());
                assert(ControllerType::All.wire_name().len() != ControllerType::Longitudinal.wire_name().len());
                assert(ControllerType::All.wire_name().len() != ControllerType::Lighting.wire_name().len());
                assert(ControllerType::All.wire_name().len() != ControllerType::Animation.wire_name().len());
                assert(ControllerType::All.wire_name().len() != ControllerType::Movement.wire_name().len());
                assert(ControllerType::All.wire_name().len() != ControllerType::Appearance.wire_name().len());
            },
        }
    }

}

impl Duplicate for ControllerType {
    open spec fn same(&self, other: &Self) -> bool {
        *self == *other
    }

    fn copied(&self) -> (r: ControllerType) {
        *self
    }
}

impl ParamValue for ControllerType {
    open spec fn accepts(s: Seq<char>) -> bool {
        ControllerType::from_wire_name(s) is Some
    }

    open spec fn denotes(s: Seq<char>, v: ControllerType) -> bool {
        ControllerType::from_wire_name(s) == Some(v)
    }

    open spec fn type_label() -> Seq<char> {
        "ControllerType"@
    }

    fn parse_text(s: &str) -> (r: Option<ControllerType>) {
        match ControllerType::from_wire(s) {
            Ok(v) => Some(v),
            Err(_) => None,
        }
    }

    fn kind_name() -> (r: String) {
        "ControllerType".to_owned()
    }

    proof fn lemma_same_is_equal(a: &Self, b: &Self) {
    }
}

impl std::str::FromStr for ControllerType {
    type Err = String;

    fn from_str(s: &str) -> Result<ControllerType, String> {
        ControllerType::from_wire(s)
    }
}

/// Precipitation type enumeration
#[derive(Debug, Clone, Copy, PartialEq, Eq, Hash)]
pub enum PrecipitationType {
    Dry,
    Rain,
    Snow,
}

impl PrecipitationType {
    /// The name under which this value is written.
    pub open spec fn wire_name(self) -> Seq<char> {
        match self {
            PrecipitationType::Dry => seq!['d', 'r', 'y'],
            PrecipitationType::Rain => seq!['r', 'a', 'i', 'n'],
            PrecipitationType::Snow => seq!['s', 'n', 'o', 'w'],
        }
    }

    /// The value written under `s`, if any.
    pub open spec fn from_wire_name(s: Seq<char>) -> Option<PrecipitationType> {
        if s == PrecipitationType::Dry.wire_name() {
            Some(PrecipitationType::Dry)
        } else if s == PrecipitationType::Rain.wire_name() {
            Some(PrecipitationType::Rain)
        } else if s == PrecipitationType::Snow.wire_name() {
            Some(PrecipitationType::Snow)
        } else {
            None
        }
    }

    /// Every value, in declaration order.
    pub open spec fn all_values() -> Seq<PrecipitationType> {
        seq![PrecipitationType::Dry, PrecipitationType::Rain, PrecipitationType::Snow]
    }

    /// The name under which this value is written.
    pub fn as_str(&self) -> (r: &'static str)
        ensures
            r@ == self.wire_name(),
    {
        match self {
            PrecipitationType::Dry => {
                proof {
                    reveal_strlit("dry");
                }
                "dry"
            },
            PrecipitationType::Rain => {
                proof {
                    reveal_strlit("rain");
                }
                "rain"
            },
            PrecipitationType::Snow => {
                proof {
                    reveal_strlit("snow");
                }
                "snow"
            },
        }
    }

    /// The name under which this value is written, as an owned string.
    pub fn to_string(&self) -> (r: String)
        ensures
            r@ == self.wire_name(),
    {
        self.as_str().to_owned()
    }

    /// The value written under `s`; an error message naming `s` when no value is.
    pub fn from_wire(s: &str) -> (r: Result<PrecipitationType, String>)
        ensures
            match r {
                Ok(v) => PrecipitationType::from_wire_name(s@) == Some(v),
                Err(m) => PrecipitationType::from_wire_name(s@) is None && m@ == "Invalid PrecipitationType: "@ + s@,
            },
    {
        if str_eq(s, PrecipitationType::Dry.as_str()) {
            return Ok(PrecipitationType::Dry);
        }
        if str_eq(s, PrecipitationType::Rain.as_str()) {
            return Ok(PrecipitationType::Rain);
        }
        if str_eq(s, PrecipitationType::Snow.as_str()) {
            return Ok(PrecipitationType::Snow);
        }
        let prefix: String = "Invalid PrecipitationType: ".to_owned();
        Err(prefix.concat(s))
    }

    /// Every value, in declaration order.
    pub fn all() -> (r: Vec<PrecipitationType>)
        ensures
            r@ == PrecipitationType::all_values(),
    {
        let r = vec![PrecipitationType::Dry, PrecipitationType::Rain, PrecipitationType::Snow];
        assert(r@ =~= PrecipitationType::all_values());
        r
    }

    /// The written names of the values, as documents write them: each value's name, and
    /// the value that each name is read as.
    pub proof fn lemma_written_names()
        ensures
            PrecipitationType::Dry.wire_name() == "dry"@,
            PrecipitationType::from_wire_name("dry"@) == Some(PrecipitationType::Dry),
            PrecipitationType::Rain.wire_name() == "rain"@,
            PrecipitationType::from_wire_name("rain"@) == Some(PrecipitationType::Rain),
            PrecipitationType::Snow.wire_name() == "snow"@,
            PrecipitationType::from_wire_name("snow"@) == Some(PrecipitationType::Snow),
    {
        reveal_strlit("dry");
        assert("dry"@ =~= PrecipitationType::Dry.wire_name());
        PrecipitationType::lemma_wire_name_round_trip(PrecipitationType::Dry);
        reveal_strlit("rain");
        assert("rain"@ =~= PrecipitationType::Rain.wire_name());
        PrecipitationType::lemma_wire_name_round_trip(PrecipitationType::Rain);
        reveal_strlit("snow");
        assert("snow"@ =~= PrecipitationType::Snow.wire_name());
        PrecipitationType::lemma_wire_name_round_trip(PrecipitationType::Snow);
    }

    /// A text that parses to a value is that value's name.
    pub proof fn lemma_parsed_text_is_wire_name(s: Seq<char>)
        ensures
            PrecipitationType::from_wire_name(s) matches Some(v) ==> v.wire_name() == s,
    {
    }

    /// The name of a value parses back to that value.
    pub proof fn lemma_wire_name_round_trip(v: PrecipitationType)
        ensures
            PrecipitationType::from_wire_name(v.wire_name()) == Some(v),
    {
        match v {
            PrecipitationType::Dry => {
            },
            PrecipitationType::Rain => {
                assert(PrecipitationType::Rain.wire_name().len() != PrecipitationType::Dry.wire_name().len());
            },
            PrecipitationType::Snow => {
                assert(PrecipitationType::Snow.wire_name().len() != PrecipitationType::Dry.wire_name().len());
                assert(PrecipitationType::Snow.wire_name()[0] != PrecipitationType::Rain.wire_name()[0]);
            },
        }
    }

}

impl Duplicate for PrecipitationType {
    open spec fn same(&self, other: &Self) -> bool {
        *self == *other
    }

    fn copied(&self) -> (r: PrecipitationType) {
        *self
    }
}

impl ParamValue for PrecipitationType {
    open spec fn accepts(s: Seq<char>) -> bool {
        PrecipitationType::from_wire_name(s) is Some
    }

    open spec fn denotes(s: Seq<char>, v: PrecipitationType) -> bool {
        PrecipitationType::from_wire_name(s) == Some(v)
    }

    open spec fn type_label() -> Seq<char> {
        "PrecipitationType"@
    }

    fn parse_text(s: &str) -> (r: Option<PrecipitationType>) {
        match PrecipitationType::from_wire(s) {
            Ok(v) => Some(v),
            Err(_) => None,
        }
    }

    fn kind_name() -> (r: String) {
        "PrecipitationType".to_owned()
    }

    proof fn lemma_same_is_equal(a: &Self, b: &Self) {
    }
}

impl std::str::FromStr for PrecipitationType {
    type Err = String;

    fn from_str(s: &str) -> Result<PrecipitationType, String> {
        PrecipitationType::from_wire(s)
    }
}

/// Wetness level enumeration
#[derive(Debug, Clone, Copy, PartialEq, Eq, Hash)]
pub enum Wetness {
    Dry,
    Moist,
    WetWithPuddles,
    LowFlooded,
    HighFlooded,
}

impl Wetness {
    /// The name under which this value is written.
    pub open spec fn wire_name(self) -> Seq<char> {
        match self {
            Wetness::Dry => seq!['d', 'r', 'y'],
            Wetness::Moist => seq!['m', 'o', 'i', 's', 't'],
            Wetness::WetWithPuddles => seq!['w', 'e', 't', 'W', 'i', 't', 'h', 'P', 'u', 'd', 'd', 'l', 'e', 's'],
            Wetness::LowFlooded => seq!['l', 'o', 'w', 'F', 'l', 'o', 'o', 'd', 'e', 'd'],
            Wetness::HighFlooded => seq!['h', 'i', 'g', 'h', 'F', 'l', 'o', 'o', 'd', 'e', 'd'],
        }
    }

    /// The value written under `s`, if any.
    pub open spec fn from_wire_name(s: Seq<char>) -> Option<Wetness> {
        if s == Wetness::Dry.wire_name() {
            Some(Wetness::Dry)
        } else if s == Wetness::Moist.wire_name() {
            Some(Wetness::Moist)
        } else if s == Wetness::WetWithPuddles.wire_name() {
            Some(Wetness::WetWithPuddles)
        } else if s == Wetness::LowFlooded.wire_name() {
            Some(Wetness::LowFlooded)
        } else if s == Wetness::HighFlooded.wire_name() {
            Some(Wetness::HighFlooded)
        } else {
            None
        }
    }

    /// Every value, in declaration order.
    pub open spec fn all_values() -> Seq<Wetness> {
        seq![Wetness::Dry, Wetness::Moist, Wetness::WetWithPuddles, Wetness::LowFlooded, Wetness::HighFlooded]
    }

    /// The name under which this value is written.
    pub fn as_str(&self) -> (r: &'static str)
        ensures
            r@ == self.wire_name(),
    {
        match self {
            Wetness::Dry => {
                proof {
                    reveal_strlit("dry");
                }
                "dry"
            },
            Wetness::Moist => {
                proof {
                    reveal_strlit("moist");
                }
                "moist"
            },
            Wetness::WetWithPuddles => {
                proof {
                    reveal_strlit("wetWithPuddles");
                }
                "wetWithPuddles"
            },
            Wetness::LowFlooded => {
                proof {
                    reveal_strlit("lowFlooded");
                }
                "lowFlooded"
            },
            Wetness::HighFlooded => {
                proof {
                    reveal_strlit("highFlooded");
                }
                "highFlooded"
            },
        }
    }

    /// The name under which this value is written, as an owned string.
    pub fn to_string(&self) -> (r: String)
        ensures
            r@ == self.wire_name(),
    {
        self.as_str().to_owned()
    }

    /// The value written under `s`; an error message naming `s` when no value is.
    pub fn from_wire(s: &str) -> (r: Result<Wetness, String>)
        ensures
            match r {
                Ok(v) => Wetness::from_wire_name(s@) == Some(v),
                Err(m) => Wetness::from_wire_name(s@) is None && m@ == "Invalid Wetness: "@ + s@,
            },
    {
        if str_eq(s, Wetness::Dry.as_str()) {
            return Ok(Wetness::Dry);
        }
        if str_eq(s, Wetness::Moist.as_str()) {
            return Ok(Wetness::Moist);
        }
        if str_eq(s, Wetness::WetWithPuddles.as_str()) {
            return Ok(Wetness::WetWithPuddles);
        }
        if str_eq(s, Wetness::LowFlooded.as_str()) {
            return Ok(Wetness::LowFlooded);
        }
        if str_eq(s, Wetness::HighFlooded.as_str()) {
            return Ok(Wetness::HighFlooded);
        }
        let prefix: String = "Invalid Wetness: ".to_owned();
        Err(prefix.concat(s))
    }

    /// Every value, in declaration order.
    pub fn all() -> (r: Vec<Wetness>)
        ensures
            r@ == Wetness::all_values(),
    {
        let r = vec![Wetness::Dry, Wetness::Moist, Wetness::WetWithPuddles, Wetness::LowFlooded, Wetness::HighFlooded];
        assert(r@ =~= Wetness::all_values());
        r
    }

    /// The written names of the values, as documents write them: each value's name, and
    /// the value that each name is read as.
    pub proof fn lemma_written_names()
        ensures
            Wetness::Dry.wire_name() == "dry"@,
            Wetness::from_wire_name("dry"@) == Some(Wetness::Dry),
            Wetness::Moist.wire_name() == "moist"@,
            Wetness::from_wire_name("moist"@) == Some(Wetness::Moist),
            Wetness::WetWithPuddles.wire_name() == "wetWithPuddles"@,
            Wetness::from_wire_name("wetWithPuddles"@) == Some(Wetness::WetWithPuddles),
            Wetness::LowFlooded.wire_name() == "lowFlooded"@,
            Wetness::from_wire_name("lowFlooded"@) == Some(Wetness::LowFlooded),
            Wetness::HighFlooded.wire_name() == "highFlooded"@,
            Wetness::from_wire_name("highFlooded"@) == Some(Wetness::HighFlooded),
    {
        reveal_strlit("dry");
        assert("dry"@ =~= Wetness::Dry.wire_name());
        Wetness::lemma_wire_name_round_trip(Wetness::Dry);
        reveal_strlit("moist");
        assert("moist"@ =~= Wetness::Moist.wire_name());
        Wetness::lemma_wire_name_round_trip(Wetness::Moist);
        reveal_strlit("wetWithPuddles");
        assert("wetWithPuddles"@ =~= Wetness::WetWithPuddles.wire_name());
        Wetness::lemma_wire_name_round_trip(Wetness::WetWithPuddles);
        reveal_strlit("lowFlooded");
        assert("lowFlooded"@ =~= Wetness::LowFlooded.wire_name());
        Wetness::lemma_wire_name_round_trip(Wetness::LowFlooded);
        reveal_strlit("highFlooded");
        assert("highFlooded"@ =~= Wetness::HighFlooded.wire_name());
        Wetness::lemma_wire_name_round_trip(Wetness::HighFlooded);
    }

    /// A text that parses to a value is that value's name.
    pub proof fn lemma_parsed_text_is_wire_name(s: Seq<char>)
        ensures
            Wetness::from_wire_name(s) matches Some(v) ==> v.wire_name() == s,
    {
    }

    /// The name of a value parses back to that value.
    pub proof fn lemma_wire_name_round_trip(v: Wetness)
        ensures
            Wetness::from_wire_name(v.wire_name()) == Some(v),
    {
        match v {
            Wetness::Dry => {
            },
            Wetness::Moist => {
                assert(Wetness::Moist.wire_name().len() != Wetness::Dry.wire_name().len());
            },
            Wetness::WetWithPuddles => {
                assert(Wetness::WetWithPuddles.wire_name().len() != Wetness::Dry.wire_name().len());
                assert(Wetness::WetWithPuddles.wire_name().len() != Wetness::Moist.wire_name().len());
            },
            Wetness::LowFlooded => {
                assert(Wetness::LowFlooded.wire_name().len() != Wetness::Dry.wire_name().len());
                assert(Wetness::LowFlooded.wire_name().len() != Wetness::Moist.wire_name().len());
                assert(Wetness::LowFlooded.wire_name().len() != Wetness::WetWithPuddles.wire_name().len());
            },
            Wetness::HighFlooded => {
                assert(Wetness::HighFlooded.wire_name().len() != Wetness::Dry.wire_name().len());
                assert(Wetness::HighFlooded.wire_name().len() != Wetness::Moist.wire_name().len());
                assert(Wetness::HighFlooded.wire_name().len() != Wetness::WetWithPuddles.wire_name().len());
                assert(Wetness::HighFlooded.wire_name().len() != Wetness::LowFlooded.wire_name().len());
            },
        }
    }

}

impl Duplicate for Wetness {
    open spec fn same(&self, other: &Self) -> bool {
        *self == *other
    }

    fn copied(&self) -> (r: Wetness) {
        *self
    }
}

impl ParamValue for Wetness {
    open spec fn accepts(s: Seq<char>) -> bool {
        Wetness::from_wire_name(s) is Some
    }

    open spec fn denotes(s: Seq<char>, v: Wetness) -> bool {
        Wetness::from_wire_name(s) == Some(v)
    }

    open spec fn type_label() -> Seq<char> {
        "Wetness"@
    }

    fn parse_text(s: &str) -> (r: Option<Wetness>) {
        match Wetness::from_wire(s) {
            Ok(v) => Some(v),
            Err(_) => None,
        }
    }

    fn kind_name() -> (r: String) {
        "Wetness".to_owned()
    }

    proof fn lemma_same_is_equal(a: &Self, b: &Self) {
    }
}

impl std::str::FromStr for Wetness {
    type Err = String;

    fn from_str(s: &str) -> Result<Wetness, String> {
        Wetness::from_wire(s)
    }
}

/// Color type enumeration
#[derive(Debug, Clone, Copy, PartialEq, Eq, Hash)]
pub enum ColorType {
    Other,
    Red,
    Yellow,
    Green,
    Blue,
    Violet,
    Orange,
    Brown,
    Black,
    White,
    Grey,
}

impl ColorType {
    /// The name under which this value is written.
    pub open spec fn wire_name(self) -> Seq<char> {
        match self {
            ColorType::Other => seq!['o', 't', 'h', 'e', 'r'],
            ColorType::Red => seq!['r', 'e', 'd'],
            ColorType::Yellow => seq!['y', 'e', 'l', 'l', 'o', 'w'],
            ColorType::Green => seq!['g', 'r', 'e', 'e', 'n'],
            ColorType::Blue => seq!['b', 'l', 'u', 'e'],
            ColorType::Violet => seq!['v', 'i', 'o', 'l', 'e', 't'],
            ColorType::Orange => seq!['o', 'r', 'a', 'n', 'g', 'e'],
            ColorType::Brown => seq!['b', 'r', 'o', 'w', 'n'],
            ColorType::Black => seq!['b', 'l', 'a', 'c', 'k'],
            ColorType::White => seq!['w', 'h', 'i', 't', 'e'],
            ColorType::Grey => seq!['g', 'r', 'e', 'y'],
        }
    }

    /// The value written under `s`, if any.
    pub open spec fn from_wire_name(s: Seq<char>) -> Option<ColorType> {
        if s == ColorType::Other.wire_name() {
            Some(ColorType::Other)
        } else if s == ColorType::Red.wire_name() {
            Some(ColorType::Red)
        } else if s == ColorType::Yellow.wire_name() {
            Some(ColorType::Yellow)
        } else if s == ColorType::Green.wire_name() {
            Some(ColorType::Green)
        } else if s == ColorType::Blue.wire_name() {
            Some(ColorType::Blue)
        } else if s == ColorType::Violet.wire_name() {
            Some(ColorType::Violet)
        } else if s == ColorType::Orange.wire_name() {
            Some(ColorType::Orange)
        } else if s == ColorType::Brown.wire_name() {
            Some(ColorType::Brown)
        } else if s == ColorType::Black.wire_name() {
            Some(ColorType::Black)
        } else if s == ColorType::White.wire_name() {
            Some(ColorType::White)
        } else if s == ColorType::Grey.wire_name() {
            Some(ColorType::Grey)
        } else {
            None
        }
    }

    /// Every value, in declaration order.
    pub open spec fn all_values() -> Seq<ColorType> {
        seq![ColorType::Other, ColorType::Red, ColorType::Yellow, ColorType::Green, ColorType::Blue, ColorType::Violet, ColorType::Orange, ColorType::Brown, ColorType::Black, ColorType::White, ColorType::Grey]
    }

    /// The name under which this value is written.
    pub fn as_str(&self) -> (r: &'static str)
        ensures
            r@ == self.wire_name(),
    {
        match self {
            ColorType::Other => {
                proof {
                    reveal_strlit("other");
                }
                "other"
            },
            ColorType::Red => {
                proof {
                    reveal_strlit("red");
                }
                "red"
            },
            ColorType::Yellow => {
                proof {
                    reveal_strlit("yellow");
                }
                "yellow"
            },
            ColorType::Green => {
                proof {
                    reveal_strlit("green");
                }
                "green"
            },
            ColorType::Blue => {
                proof {
                    reveal_strlit("blue");
                }
                "blue"
            },
            ColorType::Violet => {
                proof {
                    reveal_strlit("violet");
                }
                "violet"
            },
            ColorType::Orange => {
                proof {
                    reveal_strlit("orange");
                }
                "orange"
            },
            ColorType::Brown => {
                proof {
                    reveal_strlit("brown");
                }
                "brown"
            },
            ColorType::Black => {
                proof {
                    reveal_strlit("black");
                }
                "black"
            },
            ColorType::White => {
                proof {
                    reveal_strlit("white");
                }
                "white"
            },
            ColorType::Grey => {
                proof {
                    reveal_strlit("grey");
                }
                "grey"
            },
        }
    }

    /// The name under which this value is written, as an owned string.
    pub fn to_string(&self) -> (r: String)
        ensures
            r@ == self.wire_name(),
    {
        self.as_str().to_owned()
    }

    /// The value written under `s`; an error message naming `s` when no value is.
    pub fn from_wire(s: &str) -> (r: Result<ColorType, String>)
        ensures
            match r {
                Ok(v) => ColorType::from_wire_name(s@) == Some(v),
                Err(m) => ColorType::from_wire_name(s@) is None && m@ == "Invalid ColorType: "@ + s@,
            },
    {
        if str_eq(s, ColorType::Other.as_str()) {
            return Ok(ColorType::Other);
        }
        if str_eq(s, ColorType::Red.as_str()) {
            return Ok(ColorType::Red);
        }
        if str_eq(s, ColorType::Yellow.as_str()) {
            return Ok(ColorType::Yellow);
        }
        if str_eq(s, ColorType::Green.as_str()) {
            return Ok(ColorType::Green);
        }
        if str_eq(s, ColorType::Blue.as_str()) {
            return Ok(ColorType::Blue);
        }
        if str_eq(s, ColorType::Violet.as_str()) {
            return Ok(ColorType::Violet);
        }
        if str_eq(s, ColorType::Orange.as_str()) {
            return Ok(ColorType::Orange);
        }
        if str_eq(s, ColorType::Brown.as_str()) {
            return Ok(ColorType::Brown);
        }
        if str_eq(s, ColorType::Black.as_str()) {
            return Ok(ColorType::Black);
        }
        if str_eq(s, ColorType::White.as_str()) {
            return Ok(ColorType::White);
        }
        if str_eq(s, ColorType::Grey.as_str()) {
            return Ok(ColorType::Grey);
        }
        let prefix: String = "Invalid ColorType: ".to_owned();
        Err(prefix.concat(s))
    }

    /// Every value, in declaration order.
    pub fn all() -> (r: Vec<ColorType>)
        ensures
            r@ == ColorType::all_values(),
    {
        let r = vec![ColorType::Other, ColorType::Red, ColorType::Yellow, ColorType::Green, ColorType::Blue, ColorType::Violet, ColorType::Orange, ColorType::Brown, ColorType::Black, ColorType::White, ColorType::Grey];
        assert(r@ =~= ColorType::all_values());
        r
    }

    /// The written names of the values, as documents write them: each value's name, and
    /// the value that each name is read as.
    pub proof fn lemma_written_names()
        ensures
            ColorType::Other.wire_name() == "other"@,
            ColorType::from_wire_name("other"@) == Some(ColorType::Other),
            ColorType::Red.wire_name() == "red"@,
            ColorType::from_wire_name("red"@) == Some(ColorType::Red),
            ColorType::Yellow.wire_name() == "yellow"@,
            ColorType::from_wire_name("yellow"@) == Some(ColorType::Yellow),
            ColorType::Green.wire_name() == "green"@,
            ColorType::from_wire_name("green"@) == Some(ColorType::Green),
            ColorType::Blue.wire_name() == "blue"@,
            ColorType::from_wire_name("blue"@) == Some(ColorType::Blue),
            ColorType::Violet.wire_name() == "violet"@,
            ColorType::from_wire_name("violet"@) == Some(ColorType::Violet),
            ColorType::Orange.wire_name() == "orange"@,
            ColorType::from_wire_name("orange"@) == Some(ColorType::Orange),
            ColorType::Brown.wire_name() == "brown"@,
            ColorType::from_wire_name("brown"@) == Some(ColorType::Brown),
            ColorType::Black.wire_name() == "black"@,
            ColorType::from_wire_name("black"@) == Some(ColorType::Black),
            ColorType::White.wire_name() == "white"@,
            ColorType::from_wire_name("white"@) == Some(ColorType::White),
            ColorType::Grey.wire_name() == "grey"@,
            ColorType::from_wire_name("grey"@) == Some(ColorType::Grey),
    {
        reveal_strlit("other");
        assert("other"@ =~= ColorType::Other.wire_name());
        ColorType::lemma_wire_name_round_trip(ColorType::Other);
        reveal_strlit("red");
        assert("red"@ =~= ColorType::Red.wire_name());
        ColorType::lemma_wire_name_round_trip(ColorType::Red);
        reveal_strlit("yellow");
        assert("yellow"@ =~= ColorType::Yellow.wire_name());
        ColorType::lemma_wire_name_round_trip(ColorType::Yellow);
        reveal_strlit("green");
        assert("green"@ =~= ColorType::Green.wire_name());
        ColorType::lemma_wire_name_round_trip(ColorType::Green);
        reveal_strlit("blue");
        assert("blue"@ =~= ColorType::Blue.wire_name());
        ColorType::lemma_wire_name_round_trip(ColorType::Blue);
        reveal_strlit("violet");
        assert("violet"@ =~= ColorType::Violet.wire_name());
        ColorType::lemma_wire_name_round_trip(ColorType::Violet);
        reveal_strlit("orange");
        assert("orange"@ =~= ColorType::Orange.wire_name());
        ColorType::lemma_wire_name_round_trip(ColorType::Orange);
        reveal_strlit("brown");
        assert("brown"@ =~= ColorType::Brown.wire_name());
        ColorType::lemma_wire_name_round_trip(ColorType::Brown);
        reveal_strlit("black");
        assert("black"@ =~= ColorType::Black.wire_name());
        ColorType::lemma_wire_name_round_trip(ColorType::Black);
        reveal_strlit("white");
        assert("white"@ =~= ColorType::White.wire_name());
        ColorType::lemma_wire_name_round_trip(ColorType::White);
        reveal_strlit("grey");
        assert("grey"@ =~= ColorType::Grey.wire_name());
        ColorType::lemma_wire_name_round_trip(ColorType::Grey);
    }

    /// A text that parses to a value is that value's name.
    pub proof fn lemma_parsed_text_is_wire_name(s: Seq<char>)
        ensures
            ColorType::from_wire_name(s) matches Some(v) ==> v.wire_name() == s,
    {
    }

    /// The name of a value parses back to that value.
    pub proof fn lemma_wire_name_round_trip(v: ColorType)
        ensures
            ColorType::from_wire_name(v.wire_name()) == Some(v),
    {
        match v {
            ColorType::Other => {
            },
            ColorType::Red => {
                assert(ColorType::Red.wire_name().len() != ColorType::Other.wire_name().len());
            },
            ColorType::Yellow => {
                assert(ColorType::Yellow.wire_name().len() != ColorType::Other.wire_name().len());
                assert(ColorType::Yellow.wire_name().len() != ColorType::Red.wire_name().len());
            },
            ColorType::Green => {
                assert(ColorType::Green.wire_name()[0] != ColorType::Other.wire_name()[0]);
                assert(ColorType::Green.wire_name().len() != ColorType::Red.wire_name().len());
                assert(ColorType::Green.wire_name().len() != ColorType::Yellow.wire_name().len());
            },
            ColorType::Blue => {
                assert(ColorType::Blue.wire_name().len() != ColorType::Other.wire_name().len());
                assert(ColorType::Blue.wire_name().len() != ColorType::Red.wire_name().len());
                assert(ColorType::Blue.wire_name().len() != ColorType::Yellow.wire_name().len());
                assert(ColorType::Blue.wire_name().len() != ColorType::Green.wire_name().len());
            },
            ColorType::Violet => {
                assert(ColorType::Violet.wire_name().len() != ColorType::Other.wire_name().len());
                assert(ColorType::Violet.wire_name().len() != ColorType::Red.wire_name().len());
                assert(ColorType::Violet.wire_name()[0] != ColorType::Yellow.wire_name()[0]);
                assert(ColorType::Violet.wire_name().len() != ColorType::Green.wire_name().len());
                assert(ColorType::Violet.wire_name().len() != ColorType::Blue.wire_name().len());
            },
            ColorType::Orange => {
                assert(ColorType::Orange.wire_name().len() != ColorType::Other.wire_name().len());
                assert(ColorType::Orange.wire_name().len() != ColorType::Red.wire_name().len());
                assert(ColorType::Orange.wire_name()[0] != ColorType::Yellow.wire_name()[0]);
                assert(ColorType::Orange.wire_name().len() != ColorType::Green.wire_name().len());
                assert(ColorType::Orange.wire_name().len() != ColorType::Blue.wire_name().len());
                assert(ColorType::Orange.wire_name()[0] != ColorType::Violet.wire_name()[0]);
            },
            ColorType::Brown => {
                assert(ColorType::Brown.wire_name()[0] != ColorType::Other.wire_name()[0]);
                assert(ColorType::Brown.wire_name().len() != ColorType::Red.wire_name().len());
                assert(ColorType::Brown.wire_name().len() != ColorType::Yellow.wire_name().len());
                assert(ColorType::Brown.wire_name()[0] != ColorType::Green.wire_name()[0]);
                assert(ColorType::Brown.wire_name().len() != ColorType::Blue.wire_name().len());
                assert(ColorType::Brown.wire_name().len() != ColorType::Violet.wire_name().len());
                assert(ColorType::Brown.wire_name().len() != ColorType::Orange.wire_name().len());
            },
            ColorType::Black => {
                assert(ColorType::Black.wire_name()[0] != ColorType::Other.wire_name()[0]);
                assert(ColorType::Black.wire_name().len() != ColorType::Red.wire_name().len());
                assert(ColorType::Black.wire_name().len() != ColorType::Yellow.wire_name().len());
                assert(ColorType::Black.wire_name()[0] != ColorType::Green.wire_name()[0]);
                assert(ColorType::Black.wire_name().len() != ColorType::Blue.wire_name().len());
                assert(ColorType::Black.wire_name().len() != ColorType::Violet.wire_name().len());
                assert(ColorType::Black.wire_name().len() != ColorType::Orange.wire_name().len());
                assert(ColorType::Black.wire_name()[1] != ColorType::Brown.wire_name()[1]);
            },
            ColorType::White => {
                assert(ColorType::White.wire_name()[0] != ColorType::Other.wire_name()[0]);
                assert(ColorType::White.wire_name().len() != ColorType::Red.wire_name().len());
                assert(ColorType::White.wire_name().len() != ColorType::Yellow.wire_name().len());
                assert(ColorType::White.wire_name()[0] != ColorType::Green.wire_name()[0]);
                assert(ColorType::White.wire_name().len() != ColorType::Blue.wire_name().len());
                assert(ColorType::White.wire_name().len() != ColorType::Violet.wire_name().len());
                assert(ColorType::White.wire_name().len() != ColorType::Orange.wire_name().len());
                assert(ColorType::White.wire_name()[0] != ColorType::Brown.wire_name()[0]);
                assert(ColorType::White.wire_name()[0] != ColorType::Black.wire_name()[0]);
            },
            ColorType::Grey => {
                assert(ColorType::Grey.wire_name().len() != ColorType::Other.wire_name().len());
                assert(ColorType::Grey.wire_name().len() != ColorType::Red.wire_name().len());
                assert(ColorType::Grey.wire_name().len() != ColorType::Yellow.wire_name().len());
                assert(ColorType::Grey.wire_name().len() != ColorType::Green.wire_name().len());
                assert(ColorType::Grey.wire_name()[0] != ColorType::Blue.wire_name()[0]);
                assert(ColorType::Grey.wire_name().len() != ColorType::Violet.wire_name().len());
                assert(ColorType::Grey.wire_name().len() != ColorType::Orange.wire_name().len());
                assert(ColorType::Grey.wire_name().len() != ColorType::Brown.wire_name().len());
                assert(ColorType::Grey.wire_name().len() != ColorType::Black.wire_name().len());
                assert(ColorType::Grey.wire_name().len() != ColorType::White.wire_name().len());
            },
        }
    }

}

impl Duplicate for ColorType {
    open spec fn same(&self, other: &Self) -> bool {
        *self == *other
    }

    fn copied(&self) -> (r: ColorType) {
        *self
    }
}

impl ParamValue for ColorType {
    open spec fn accepts(s: Seq<char>) -> bool {
        ColorType::from_wire_name(s) is Some
    }

    open spec fn denotes(s: Seq<char>, v: ColorType) -> bool {
        ColorType::from_wire_name(s) == Some(v)
    }

    open spec fn type_label() -> Seq<char> {
        "ColorType"@
    }

    fn parse_text(s: &str) -> (r: Option<ColorType>) {
        match ColorType::from_wire(s) {
            Ok(v) => Some(v),
            Err(_) => None,
        }
    }

    fn kind_name() -> (r: String) {
        "ColorType".to_owned()
    }

    proof fn lemma_same_is_equal(a: &Self, b: &Self) {
    }
}

impl std::str::FromStr for ColorType {
    type Err = String;

    fn from_str(s: &str) -> Result<ColorType, String> {
        ColorType::from_wire(s)
    }
}

/// Role enumeration
#[derive(Debug, Clone, Copy, PartialEq, Eq, Hash)]
pub enum Role {
    NoRole,
    Ambulance,
    Civil,
    Fire,
    Military,
    Police,
    PublicTransport,
    RoadAssistance,
}

impl Role {
    /// The name under which this value is written.
    pub open spec fn wire_name(self) -> Seq<char> {
        match self {
            Role::NoRole => seq!['n', 'o', 'n', 'e'],
            Role::Ambulance => seq!['a', 'm', 'b', 'u', 'l', 'a', 'n', 'c', 'e'],
            Role::Civil => seq!['c', 'i', 'v', 'i', 'l'],
            Role::Fire => seq!['f', 'i', 'r', 'e'],
            Role::Military => seq!['m', 'i', 'l', 'i', 't', 'a', 'r', 'y'],
            Role::Police => seq!['p', 'o', 'l', 'i', 'c', 'e'],
            Role::PublicTransport => seq!['p', 'u', 'b', 'l', 'i', 'c', 'T', 'r', 'a', 'n', 's', 'p', 'o', 'r', 't'],
            Role::RoadAssistance => seq!['r', 'o', 'a', 'd', 'A', 's', 's', 'i', 's', 't', 'a', 'n', 'c', 'e'],
        }
    }

    /// The value written under `s`, if any.
    pub open spec fn from_wire_name(s: Seq<char>) -> Option<Role> {
        if s == Role::NoRole.wire_name() {
            Some(Role::NoRole)
        } else if s == Role::Ambulance.wire_name() {
            Some(Role::Ambulance)
        } else if s == Role::Civil.wire_name() {
            Some(Role::Civil)
        } else if s == Role::Fire.wire_name() {
            Some(Role::Fire)
        } else if s == Role::Military.wire_name() {
            Some(Role::Military)
        } else if s == Role::Police.wire_name() {
            Some(Role::Police)
        } else if s == Role::PublicTransport.wire_name() {
            Some(Role::PublicTransport)
        } else if s == Role::RoadAssistance.wire_name() {
            Some(Role::RoadAssistance)
        } else {
            None
        }
    }

    /// Every value, in declaration order.
    pub open spec fn all_values() -> Seq<Role> {
        seq![Role::NoRole, Role::Ambulance, Role::Civil, Role::Fire, Role::Military, Role::Police, Role::PublicTransport, Role::RoadAssistance]
    }

    /// The name under which this value is written.
    pub fn as_str(&self) -> (r: &'static str)
        ensures
            r@ == self.wire_name(),
    {
        match self {
            Role::NoRole => {
                proof {
                    reveal_strlit("none");
                }
                "none"
            },
            Role::Ambulance => {
                proof {
                    reveal_strlit("ambulance");
                }
                "ambulance"
            },
            Role::Civil => {
                proof {
                    reveal_strlit("civil");
                }
                "civil"
            },
            Role::Fire => {
                proof {
                    reveal_strlit("fire");
                }
                "fire"
            },
            Role::Military => {
                proof {
                    reveal_strlit("military");
                }
                "military"
            },
            Role::Police => {
                proof {
                    reveal_strlit("police");
                }
                "police"
            },
            Role::PublicTransport => {
                proof {
                    reveal_strlit("publicTransport");
                }
                "publicTransport"
            },
            Role::RoadAssistance => {
                proof {
                    reveal_strlit("roadAssistance");
                }
                "roadAssistance"
            },
        }
    }

    /// The name under which this value is written, as an owned string.
    pub fn to_string(&self) -> (r: String)
        ensures
            r@ == self.wire_name(),
    {
        self.as_str().to_owned()
    }

    /// The value written under `s`; an error message naming `s` when no value is.
    pub fn from_wire(s: &str) -> (r: Result<Role, String>)
        ensures
            match r {
                Ok(v) => Role::from_wire_name(s@) == Some(v),
                Err(m) => Role::from_wire_name(s@) is None && m@ == "Invalid Role: "@ + s@,
            },
    {
        if str_eq(s, Role::NoRole.as_str()) {
            return Ok(Role::NoRole);
        }
        if str_eq(s, Role::Ambulance.as_str()) {
            return Ok(Role::Ambulance);
        }
        if str_eq(s, Role::Civil.as_str()) {
            return Ok(Role::Civil);
        }
        if str_eq(s, Role::Fire.as_str()) {
            return Ok(Role::Fire);
        }
        if str_eq(s, Role::Military.as_str()) {
            return Ok(Role::Military);
        }
        if str_eq(s, Role::Police.as_str()) {
            return Ok(Role::Police);
        }
        if str_eq(s, Role::PublicTransport.as_str()) {
            return Ok(Role::PublicTransport);
        }
        if str_eq(s, Role::RoadAssistance.as_str()) {
            return Ok(Role::RoadAssistance);
        }
        let prefix: String = "Invalid Role: ".to_owned();
        Err(prefix.concat(s))
    }

    /// Every value, in declaration order.
    pub fn all() -> (r: Vec<Role>)
        ensures
            r@ == Role::all_values(),
    {
        let r = vec![Role::NoRole, Role::Ambulance, Role::Civil, Role::Fire, Role::Military, Role::Police, Role::PublicTransport, Role::RoadAssistance];
        assert(r@ =~= Role::all_values());
        r
    }

    /// The written names of the values, as documents write them: each value's name, and
    /// the value that each name is read as.
    pub proof fn lemma_written_names()
        ensures
            Role::NoRole.wire_name() == "none"@,
            Role::from_wire_name("none"@) == Some(Role::NoRole),
            Role::Ambulance.wire_name() == "ambulance"@,
            Role::from_wire_name("ambulance"@) == Some(Role::Ambulance),
            Role::Civil.wire_name() == "civil"@,
            Role::from_wire_name("civil"@) == Some(Role::Civil),
            Role::Fire.wire_name() == "fire"@,
            Role::from_wire_name("fire"@) == Some(Role::Fire),
            Role::Military.wire_name() == "military"@,
            Role::from_wire_name("military"@) == Some(Role::Military),
            Role::Police.wire_name() == "police"@,
            Role::from_wire_name("police"@) == Some(Role::Police),
            Role::PublicTransport.wire_name() == "publicTransport"@,
            Role::from_wire_name("publicTransport"@) == Some(Role::PublicTransport),
            Role::RoadAssistance.wire_name() == "roadAssistance"@,
            Role::from_wire_name("roadAssistance"@) == Some(Role::RoadAssistance),
    {
        reveal_strlit("none");
        assert("none"@ =~= Role::NoRole.wire_name());
        Role::lemma_wire_name_round_trip(Role::NoRole);
        reveal_strlit("ambulance");
        assert("ambulance"@ =~= Role::Ambulance.wire_name());
        Role::lemma_wire_name_round_trip(Role::Ambulance);
        reveal_strlit("civil");
        assert("civil"@ =~= Role::Civil.wire_name());
        Role::lemma_wire_name_round_trip(Role::Civil);
        reveal_strlit("fire");
        assert("fire"@ =~= Role::Fire.wire_name());
        Role::lemma_wire_name_round_trip(Role::Fire);
        reveal_strlit("military");
        assert("military"@ =~= Role::Military.wire_name());
        Role::lemma_wire_name_round_trip(Role::Military);
        reveal_strlit("police");
        assert("police"@ =~= Role::Police.wire_name());
        Role::lemma_wire_name_round_trip(Role::Police);
        reveal_strlit("publicTransport");
        assert("publicTransport"@ =~= Role::PublicTransport.wire_name());
        Role::lemma_wire_name_round_trip(Role::PublicTransport);
        reveal_strlit("roadAssistance");
        assert("roadAssistance"@ =~= Role::RoadAssistance.wire_name());
        Role::lemma_wire_name_round_trip(Role::RoadAssistance);
    }

    /// A text that parses to a value is that value's name.
    pub proof fn lemma_parsed_text_is_wire_name(s: Seq<char>)
        ensures
            Role::from_wire_name(s) matches Some(v) ==> v.wire_name() == s,
    {
    }

    /// The name of a value parses back to that value.
    pub proof fn lemma_wire_name_round_trip(v: Role)
        ensures
            Role::from_wire_name(v.wire_name()) == Some(v),
    {
        match v {
            Role::NoRole => {
            },
            Role::Ambulance => {
                assert(Role::Ambulance.wire_name().len() != Role::NoRole.wire_name().len());
            },
            Role::Civil => {
                assert(Role::Civil.wire_name().len() != Role::NoRole.wire_name().len());
                assert(Role::Civil.wire_name().len() != Role::Ambulance.wire_name().len());
            },
            Role::Fire => {
                assert(Role::Fire.wire_name()[0] != Role::NoRole.wire_name()[0]);
                assert(Role::Fire.wire_name().len() != Role::Ambulance.wire_name().len());
                assert(Role::Fire.wire_name().len() != Role::Civil.wire_name().len());
            },
            Role::Military => {
                assert(Role::Military.wire_name().len() != Role::NoRole.wire_name().len());
                assert(Role::Military.wire_name().len() != Role::Ambulance.wire_name().len());
                assert(Role::Military.wire_name().len() != Role::Civil.wire_name().len());
                assert(Role::Military.wire_name().len() != Role::Fire.wire_name().len());
            },
            Role::Police => {
                assert(Role::Police.wire_name().len() != Role::NoRole.wire_name().len());
                assert(Role::Police.wire_name().len() != Role::Ambulance.wire_name().len());
                assert(Role::Police.wire_name().len() != Role::Civil.wire_name().len());
                assert(Role::Police.wire_name().len() != Role::Fire.wire_name().len());
                assert(Role::Police.wire_name().len() != Role::Military.wire_name().len());
            },
            Role::PublicTransport => {
                assert(Role::PublicTransport.wire_name().len() != Role::NoRole.wire_name().len());
                assert(Role::PublicTransport.wire_name().len() != Role::Ambulance.wire_name().len());
                assert(Role::PublicTransport.wire_name().len() != Role::Civil.wire_name().len());
                assert(Role::PublicTransport.wire_name().len() != Role::Fire.wire_name().len());
                assert(Role::PublicTransport.wire_name().len() != Role::Military.wire_name().len());
                assert(Role::PublicTransport.wire_name().len() != Role::Police.wire_name().len());
            },
            Role::RoadAssistance => {
                assert(Role::RoadAssistance.wire_name().len() != Role::NoRole.wire_name().len());
                assert(Role::RoadAssistance.wire_name().len() != Role::Ambulance.wire_name().len());
                assert(Role::RoadAssistance.wire_name().len() != Role::Civil.wire_name().len());
                assert(Role::RoadAssistance.wire_name().len() != Role::Fire.wire_name().len());
                assert(Role::RoadAssistance.wire_name().len() != Role::Military.wire_name().len());
                assert(Role::RoadAssistance.wire_name().len() != Role::Police.wire_name().len());
                assert(Role::RoadAssistance.wire_name().len() != Role::PublicTransport.wire_name().len());
            },
        }
    }

}

impl Duplicate for Role {
    open spec fn same(&self, other: &Self) -> bool {
        *self == *other
    }

    fn copied(&self) -> (r: Role) {
        *self
    }
}

impl ParamValue for Role {
    open spec fn accepts(s: Seq<char>) -> bool {
        Role::from_wire_name(s) is Some
    }

    open spec fn denotes(s: Seq<char>, v: Role) -> bool {
        Role::from_wire_name(s) == Some(v)
    }

    open spec fn type_label() -> Seq<char> {
        "Role"@
    }

    fn parse_text(s: &str) -> (r: Option<Role>) {
        match Role::from_wire(s) {
            Ok(v) => Some(v),
            Err(_) => None,
        }
    }

    fn kind_name() -> (r: String) {
        "Role".to_owned()
    }

    proof fn lemma_same_is_equal(a: &Self, b: &Self) {
    }
}

impl std::str::FromStr for Role {
    type Err = String;

    fn from_str(s: &str) -> Result<Role, String> {
        Role::from_wire(s)
    }
}

/// Angle type enumeration
#[derive(Debug, Clone, Copy, PartialEq, Eq, Hash)]
pub enum AngleType {
    Heading,
    Pitch,
    Roll,
}

impl AngleType {
    /// The name under which this value is written.
    pub open spec fn wire_name(self) -> Seq<char> {
        match self {
            AngleType::Heading => seq!['h', 'e', 'a', 'd', 'i', 'n', 'g'],
            AngleType::Pitch => seq!['p', 'i', 't', 'c', 'h'],
            AngleType::Roll => seq!['r', 'o', 'l', 'l'],
        }
    }

    /// The value written under `s`, if any.
    pub open spec fn from_wire_name(s: Seq<char>) -> Option<AngleType> {
        if s == AngleType::Heading.wire_name() {
            Some(AngleType::Heading)
        } else if s == AngleType::Pitch.wire_name() {
            Some(AngleType::Pitch)
        } else if s == AngleType::Roll.wire_name() {
            Some(AngleType::Roll)
        } else {
            None
        }
    }

    /// Every value, in declaration order.
    pub open spec fn all_values() -> Seq<AngleType> {
        seq![AngleType::Heading, AngleType::Pitch, AngleType::Roll]
    }

    /// The name under which this value is written.
    pub fn as_str(&self) -> (r: &'static str)
        ensures
            r@ == self.wire_name(),
    {
        match self {
            AngleType::Heading => {
                proof {
                    reveal_strlit("heading");
                }
                "heading"
            },
            AngleType::Pitch => {
                proof {
                    reveal_strlit("pitch");
                }
                "pitch"
            },
            AngleType::Roll => {
                proof {
                    reveal_strlit("roll");
                }
                "roll"
            },
        }
    }

    /// The name under which this value is written, as an owned string.
    pub fn to_string(&self) -> (r: String)
        ensures
            r@ == self.wire_name(),
    {
        self.as_str().to_owned()
    }

    /// The value written under `s`; an error message naming `s` when no value is.
    pub fn from_wire(s: &str) -> (r: Result<AngleType, String>)
        ensures
            match r {
                Ok(v) => AngleType::from_wire_name(s@) == Some(v),
                Err(m) => AngleType::from_wire_name(s@) is None && m@ == "Invalid AngleType: "@ + s@,
            },
    {
        if str_eq(s, AngleType::Heading.as_str()) {
            return Ok(AngleType::Heading);
        }
        if str_eq(s, AngleType::Pitch.as_str()) {
            return Ok(AngleType::Pitch);
        }
        if str_eq(s, AngleType::Roll.as_str()) {
            return Ok(AngleType::Roll);
        }
        let prefix: String = "Invalid AngleType: ".to_owned();
        Err(prefix.concat(s))
    }

    /// Every value, in declaration order.
    pub fn all() -> (r: Vec<AngleType>)
        ensures
            r@ == AngleType::all_values(),
    {
        let r = vec![AngleType::Heading, AngleType::Pitch, AngleType::Roll];
        assert(r@ =~= AngleType::all_values());
        r
    }

    /// The written names of the values, as documents write them: each value's name, and
    /// the value that each name is read as.
    pub proof fn lemma_written_names()
        ensures
            AngleType::Heading.wire_name() == "heading"@,
            AngleType::from_wire_name("heading"@) == Some(AngleType::Heading),
            AngleType::Pitch.wire_name() == "pitch"@,
            AngleType::from_wire_name("pitch"@) == Some(AngleType::Pitch),
            AngleType::Roll.wire_name() == "roll"@,
            AngleType::from_wire_name("roll"@) == Some(AngleType::Roll),
    {
        reveal_strlit("heading");
        assert("heading"@ =~= AngleType::Heading.wire_name());
        AngleType::lemma_wire_name_round_trip(AngleType::Heading);
        reveal_strlit("pitch");
        assert("pitch"@ =~= AngleType::Pitch.wire_name());
        AngleType::lemma_wire_name_round_trip(AngleType::Pitch);
        reveal_strlit("roll");
        assert("roll"@ =~= AngleType::Roll.wire_name());
        AngleType::lemma_wire_name_round_trip(AngleType::Roll);
    }

    /// A text that parses to a value is that value's name.
    pub proof fn lemma_parsed_text_is_wire_name(s: Seq<char>)
        ensures
            AngleType::from_wire_name(s) matches Some(v) ==> v.wire_name() == s,
    {
    }

    /// The name of a value parses back to that value.
    pub proof fn lemma_wire_name_round_trip(v: AngleType)
        ensures
            AngleType::from_wire_name(v.wire_name()) == Some(v),
    {
        match v {
            AngleType::Heading => {
            },
            AngleType::Pitch => {
                assert(AngleType::Pitch.wire_name().len() != AngleType::Heading.wire_name().len());
            },
            AngleType::Roll => {
                assert(AngleType::Roll.wire_name().len() != AngleType::Heading.wire_name().len());
                assert(AngleType::Roll.wire_name().len() != AngleType::Pitch.wire_name().len());
            },
        }
    }

}

impl Duplicate for AngleType {
    open spec fn same(&self, other: &Self) -> bool {
        *self == *other
    }

    fn copied(&self) -> (r: AngleType) {
        *self
    }
}

impl ParamValue for AngleType {
    open spec fn accepts(s: Seq<char>) -> bool {
        AngleType::from_wire_name(s) is Some
    }

    open spec fn denotes(s: Seq<char>, v: AngleType) -> bool {
        AngleType::from_wire_name(s) == Some(v)
    }

    open spec fn type_label() -> Seq<char> {
        "AngleType"@
    }

    fn parse_text(s: &str) -> (r: Option<AngleType>) {
        match AngleType::from_wire(s) {
            Ok(v) => Some(v),
            Err(_) => None,
        }
    }

    fn kind_name() -> (r: String) {
        "AngleType".to_owned()
    }

    proof fn lemma_same_is_equal(a: &Self, b: &Self) {
    }
}

impl std::str::FromStr for AngleType {
    type Err = String;

    fn from_str(s: &str) -> Result<AngleType, String> {
        AngleType::from_wire(s)
    }
}

/// Directional dimension enumeration
#[derive(Debug, Clone, Copy, PartialEq, Eq, Hash)]
pub enum DirectionalDimension {
    Longitudinal,
    Lateral,
    Vertical,
}

impl DirectionalDimension {
    /// The name under which this value is written.
    pub open spec fn wire_name(self) -> Seq<char> {
        match self {
            DirectionalDimension::Longitudinal => seq!['l', 'o', 'n', 'g', 'i', 't', 'u', 'd', 'i', 'n', 'a', 'l'],
            DirectionalDimension::Lateral => seq!['l', 'a', 't', 'e', 'r', 'a', 'l'],
            DirectionalDimension::Vertical => seq!['v', 'e', 'r', 't', 'i', 'c', 'a', 'l'],
        }
    }

    /// The value written under `s`, if any.
    pub open spec fn from_wire_name(s: Seq<char>) -> Option<DirectionalDimension> {
        if s == DirectionalDimension::Longitudinal.wire_name() {
            Some(DirectionalDimension::Longitudinal)
        } else if s == DirectionalDimension::Lateral.wire_name() {
            Some(DirectionalDimension::Lateral)
        } else if s == DirectionalDimension::Vertical.wire_name() {
            Some(DirectionalDimension::Vertical)
        } else {
            None
        }
    }

    /// Every value, in declaration order.
    pub open spec fn all_values() -> Seq<DirectionalDimension> {
        seq![DirectionalDimension::Longitudinal, DirectionalDimension::Lateral, DirectionalDimension::Vertical]
    }

    /// The name under which this value is written.
    pub fn as_str(&self) -> (r: &'static str)
        ensures
            r@ == self.wire_name(),
    {
        match self {
            DirectionalDimension::Longitudinal => {
                proof {
                    reveal_strlit("longitudinal");
                }
                "longitudinal"
            },
            DirectionalDimension::Lateral => {
                proof {
                    reveal_strlit("lateral");
                }
                "lateral"
            },
            DirectionalDimension::Vertical => {
                proof {
                    reveal_strlit("vertical");
                }
                "vertical"
            },
        }
    }

    /// The name under which this value is written, as an owned string.
    pub fn to_string(&self) -> (r: String)
        ensures
            r@ == self.wire_name(),
    {
        self.as_str().to_owned()
    }

    /// The value written under `s`; an error message naming `s` when no value is.
    pub fn from_wire(s: &str) -> (r: Result<DirectionalDimension, String>)
        ensures
            match r {
                Ok(v) => DirectionalDimension::from_wire_name(s@) == Some(v),
                Err(m) => DirectionalDimension::from_wire_name(s@) is None && m@ == "Invalid DirectionalDimension: "@ + s@,
            },
    {
        if str_eq(s, DirectionalDimension::Longitudinal.as_str()) {
            return Ok(DirectionalDimension::Longitudinal);
        }
        if str_eq(s, DirectionalDimension::Lateral.as_str()) {
            return Ok(DirectionalDimension::Lateral);
        }
        if str_eq(s, DirectionalDimension::Vertical.as_str()) {
            return Ok(DirectionalDimension::Vertical);
        }
        let prefix: String = "Invalid DirectionalDimension: ".to_owned();
        Err(prefix.concat(s))
    }

    /// Every value, in declaration order.
    pub fn all() -> (r: Vec<DirectionalDimension>)
        ensures
            r@ == DirectionalDimension::all_values(),
    {
        let r = vec![DirectionalDimension::Longitudinal, DirectionalDimension::Lateral, DirectionalDimension::Vertical];
        assert(r@ =~= DirectionalDimension::all_values());
        r
    }

    /// The written names of the values, as documents write them: each value's name, and
    /// the value that each name is read as.
    pub proof fn lemma_written_names()
        ensures
            DirectionalDimension::Longitudinal.wire_name() == "longitudinal"@,
            DirectionalDimension::from_wire_name("longitudinal"@) == Some(DirectionalDimension::Longitudinal),
            DirectionalDimension::Lateral.wire_name() == "lateral"@,
            DirectionalDimension::from_wire_name("lateral"@) == Some(DirectionalDimension::Lateral),
            DirectionalDimension::Vertical.wire_name() == "vertical"@,
            DirectionalDimension::from_wire_name("vertical"@) == Some(DirectionalDimension::Vertical),
    {
        reveal_strlit("longitudinal");
        assert("longitudinal"@ =~= DirectionalDimension::Longitudinal.wire_name());
        DirectionalDimension::lemma_wire_name_round_trip(DirectionalDimension::Longitudinal);
        reveal_strlit("lateral");
        assert("lateral"@ =~= DirectionalDimension::Lateral.wire_name());
        DirectionalDimension::lemma_wire_name_round_trip(DirectionalDimension::Lateral);
        reveal_strlit("vertical");
        assert("vertical"@ =~= DirectionalDimension::Vertical.wire_name());
        DirectionalDimension::lemma_wire_name_round_trip(DirectionalDimension::Vertical);
    }

    /// A text that parses to a value is that value's name.
    pub proof fn lemma_parsed_text_is_wire_name(s: Seq<char>)
        ensures
            DirectionalDimension::from_wire_name(s) matches Some(v) ==> v.wire_name() == s,
    {
    }

    /// The name of a value parses back to that value.
    pub proof fn lemma_wire_name_round_trip(v: DirectionalDimension)
        ensures
            DirectionalDimension::from_wire_name(v.wire_name()) == Some(v),
    {
        match v {
            DirectionalDimension::Longitudinal => {
            },
            DirectionalDimension::Lateral => {
                assert(DirectionalDimension::Lateral.wire_name().len() != DirectionalDimension::Longitudinal.wire_name().len());
            },
            DirectionalDimension::Vertical => {
                assert(DirectionalDimension::Vertical.wire_name().len() != DirectionalDimension::Longitudinal.wire_name().len());
                assert(DirectionalDimension::Vertical.wire_name().len() != DirectionalDimension::Lateral.wire_name().len());
            },
        }
    }

}

impl Duplicate for DirectionalDimension {
    open spec fn same(&self, other: &Self) -> bool {
        *self == *other
    }

    fn copied(&self) -> (r: DirectionalDimension) {
        *self
    }
}

impl ParamValue for DirectionalDimension {
    open spec fn accepts(s: Seq<char>) -> bool {
        DirectionalDimension::from_wire_name(s) is Some
    }

    open spec fn denotes(s: Seq<char>, v: DirectionalDimension) -> bool {
        DirectionalDimension::from_wire_name(s) == Some(v)
    }

    open spec fn type_label() -> Seq<char> {
        "DirectionalDimension"@
    }

    fn parse_text(s: &str) -> (r: Option<DirectionalDimension>) {
        match DirectionalDimension::from_wire(s) {
            Ok(v) => Some(v),
            Err(_) => None,
        }
    }

    fn kind_name() -> (r: String) {
        "DirectionalDimension".to_owned()
    }

    proof fn lemma_same_is_equal(a: &Self, b: &Self) {
    }
}

impl std::str::FromStr for DirectionalDimension {
    type Err = String;

    fn from_str(s: &str) -> Result<DirectionalDimension, String> {
        DirectionalDimension::from_wire(s)
    }
}

/// Vehicle component type enumeration
#[derive(Debug, Clone, Copy, PartialEq, Eq, Hash)]
pub enum VehicleComponentType {
    Hood,
    Trunk,
    DoorFrontLeft,
    DoorFrontRight,
    DoorRearLeft,
    DoorRearRight,
    WindowFrontLeft,
    WindowFrontRight,
    WindowRearLeft,
    WindowRearRight,
    SideMirrors,
    SideMirrorRight,
    SideMirrorLeft,
}

impl VehicleComponentType {
    /// The name under which this value is written.
    pub open spec fn wire_name(self) -> Seq<char> {
        match self {
            VehicleComponentType::Hood => seq!['h', 'o', 'o', 'd'],
            VehicleComponentType::Trunk => seq!['t', 'r', 'u', 'n', 'k'],
            VehicleComponentType::DoorFrontLeft => seq!['d', 'o', 'o', 'r', 'F', 'r', 'o', 'n', 't', 'L', 'e', 'f', 't'],
            VehicleComponentType::DoorFrontRight => seq!['d', 'o', 'o', 'r', 'F', 'r', 'o', 'n', 't', 'R', 'i', 'g', 'h', 't'],
            VehicleComponentType::DoorRearLeft => seq!['d', 'o', 'o', 'r', 'R', 'e', 'a', 'r', 'L', 'e', 'f', 't'],
            VehicleComponentType::DoorRearRight => seq!['d', 'o', 'o', 'r', 'R', 'e', 'a', 'r', 'R', 'i', 'g', 'h', 't'],
            VehicleComponentType::WindowFrontLeft => seq!['w', 'i', 'n', 'd', 'o', 'w', 'F', 'r', 'o', 'n', 't', 'L', 'e', 'f', 't'],
            VehicleComponentType::WindowFrontRight => seq!['w', 'i', 'n', 'd', 'o', 'w', 'F', 'r', 'o', 'n', 't', 'R', 'i', 'g', 'h', 't'],
            VehicleComponentType::WindowRearLeft => seq!['w', 'i', 'n', 'd', 'o', 'w', 'R', 'e', 'a', 'r', 'L', 'e', 'f', 't'],
            VehicleComponentType::WindowRearRight => seq!['w', 'i', 'n', 'd', 'o', 'w', 'R', 'e', 'a', 'r', 'R', 'i', 'g', 'h', 't'],
            VehicleComponentType::SideMirrors => seq!['s', 'i', 'd', 'e', 'M', 'i', 'r', 'r', 'o', 'r', 's'],
            VehicleComponentType::SideMirrorRight => seq!['s', 'i', 'd', 'e', 'M', 'i', 'r', 'r', 'o', 'r', 'R', 'i', 'g', 'h', 't'],
            VehicleComponentType::SideMirrorLeft => seq!['s', 'i', 'd', 'e', 'M', 'i', 'r', 'r', 'o', 'r', 'L', 'e', 'f', 't'],
        }
    }

    /// The value written under `s`, if any.
    pub open spec fn from_wire_name(s: Seq<char>) -> Option<VehicleComponentType> {
        if s == VehicleComponentType::Hood.wire_name() {
            Some(VehicleComponentType::Hood)
        } else if s == VehicleComponentType::Trunk.wire_name() {
            Some(VehicleComponentType::Trunk)
        } else if s == VehicleComponentType::DoorFrontLeft.wire_name() {
            Some(VehicleComponentType::DoorFrontLeft)
        } else if s == VehicleComponentType::DoorFrontRight.wire_name() {
            Some(VehicleComponentType::DoorFrontRight)
        } else if s == VehicleComponentType::DoorRearLeft.wire_name() {
            Some(VehicleComponentType::DoorRearLeft)
        } else if s == VehicleComponentType::DoorRearRight.wire_name() {
            Some(VehicleComponentType::DoorRearRight)
        } else if s == VehicleComponentType::WindowFrontLeft.wire_name() {
            Some(VehicleComponentType::WindowFrontLeft)
        } else if s == VehicleComponentType::WindowFrontRight.wire_name() {
            Some(VehicleComponentType::WindowFrontRight)
        } else if s == VehicleComponentType::WindowRearLeft.wire_name() {
            Some(VehicleComponentType::WindowRearLeft)
        } else if s == VehicleComponentType::WindowRearRight.wire_name() {
            Some(VehicleComponentType::WindowRearRight)
        } else if s == VehicleComponentType::SideMirrors.wire_name() {
            Some(VehicleComponentType::SideMirrors)
        } else if s == VehicleComponentType::SideMirrorRight.wire_name() {
            Some(VehicleComponentType::SideMirrorRight)
        } else if s == VehicleComponentType::SideMirrorLeft.wire_name() {
            Some(VehicleComponentType::SideMirrorLeft)
        } else {
            None
        }
    }

    /// Every value, in declaration order.
    pub open spec fn all_values() -> Seq<VehicleComponentType> {
        seq![VehicleComponentType::Hood, VehicleComponentType::Trunk, VehicleComponentType::DoorFrontLeft, VehicleComponentType::DoorFrontRight, VehicleComponentType::DoorRearLeft, VehicleComponentType::DoorRearRight, VehicleComponentType::WindowFrontLeft, VehicleComponentType::WindowFrontRight, VehicleComponentType::WindowRearLeft, VehicleComponentType::WindowRearRight, VehicleComponentType::SideMirrors, VehicleComponentType::SideMirrorRight, VehicleComponentType::SideMirrorLeft]
    }

    /// The name under which this value is written.
    pub fn as_str(&self) -> (r: &'static str)
        ensures
            r@ == self.wire_name(),
    {
        match self {
            VehicleComponentType::Hood => {
                proof {
                    reveal_strlit("hood");
                }
                "hood"
            },
            VehicleComponentType::Trunk => {
                proof {
                    reveal_strlit("trunk");
                }
                "trunk"
            },
            VehicleComponentType::DoorFrontLeft => {
                proof {
                    reveal_strlit("doorFrontLeft");
                }
                "doorFrontLeft"
            },
            VehicleComponentType::DoorFrontRight => {
                proof {
                    reveal_strlit("doorFrontRight");
                }
                "doorFrontRight"
            },
            VehicleComponentType::DoorRearLeft => {
                proof {
                    reveal_strlit("doorRearLeft");
                }
                "doorRearLeft"
            },
            VehicleComponentType::DoorRearRight => {
                proof {
                    reveal_strlit("doorRearRight");
                }
                "doorRearRight"
            },
            VehicleComponentType::WindowFrontLeft => {
                proof {
                    reveal_strlit("windowFrontLeft");
                }
                "windowFrontLeft"
            },
            VehicleComponentType::WindowFrontRight => {
                proof {
                    reveal_strlit("windowFrontRight");
                }
                "windowFrontRight"
            },
            VehicleComponentType::WindowRearLeft => {
                proof {
                    reveal_strlit("windowRearLeft");
                }
                "windowRearLeft"
            },
            VehicleComponentType::WindowRearRight => {
                proof {
                    reveal_strlit("windowRearRight");
                }
                "windowRearRight"
            },
            VehicleComponentType::SideMirrors => {
                proof {
                    reveal_strlit("sideMirrors");
                }
                "sideMirrors"
            },
            VehicleComponentType::SideMirrorRight => {
                proof {
                    reveal_strlit("sideMirrorRight");
                }
                "sideMirrorRight"
            },
            VehicleComponentType::SideMirrorLeft => {
                proof {
                    reveal_strlit("sideMirrorLeft");
                }
                "sideMirrorLeft"
            },
        }
    }

    /// The name under which this value is written, as an owned string.
    pub fn to_string(&self) -> (r: String)
        ensures
            r@ == self.wire_name(),
    {
        self.as_str().to_owned()
    }

    /// The value written under `s`; an error message naming `s` when no value is.
    pub fn from_wire(s: &str) -> (r: Result<VehicleComponentType, String>)
        ensures
            match r {
                Ok(v) => VehicleComponentType::from_wire_name(s@) == Some(v),
                Err(m) => VehicleComponentType::from_wire_name(s@) is None && m@ == "Invalid VehicleComponentType: "@ + s@,
            },
    {
        if str_eq(s, VehicleComponentType::Hood.as_str()) {
            return Ok(VehicleComponentType::Hood);
        }
        if str_eq(s, VehicleComponentType::Trunk.as_str()) {
            return Ok(VehicleComponentType::Trunk);
        }
        if str_eq(s, VehicleComponentType::DoorFrontLeft.as_str()) {
            return Ok(VehicleComponentType::DoorFrontLeft);
        }
        if str_eq(s, VehicleComponentType::DoorFrontRight.as_str()) {
            return Ok(VehicleComponentType::DoorFrontRight);
        }
        if str_eq(s, VehicleComponentType::DoorRearLeft.as_str()) {
            return Ok(VehicleComponentType::DoorRearLeft);
        }
        if str_eq(s, VehicleComponentType::DoorRearRight.as_str()) {
            return Ok(VehicleComponentType::DoorRearRight);
        }
        if str_eq(s, VehicleComponentType::WindowFrontLeft.as_str()) {
            return Ok(VehicleComponentType::WindowFrontLeft);
        }
        if str_eq(s, VehicleComponentType::WindowFrontRight.as_str()) {
            return Ok(VehicleComponentType::WindowFrontRight);
        }
        if str_eq(s, VehicleComponentType::WindowRearLeft.as_str()) {
            return Ok(VehicleComponentType::WindowRearLeft);
        }
        if str_eq(s, VehicleComponentType::WindowRearRight.as_str()) {
            return Ok(VehicleComponentType::WindowRearRight);
        }
        if str_eq(s, VehicleComponentType::SideMirrors.as_str()) {
            return Ok(VehicleComponentType::SideMirrors);
        }
        if str_eq(s, VehicleComponentType::SideMirrorRight.as_str()) {
            return Ok(VehicleComponentType::SideMirrorRight);
        }
        if str_eq(s, VehicleComponentType::SideMirrorLeft.as_str()) {
            return Ok(VehicleComponentType::SideMirrorLeft);
        }
        let prefix: String = "Invalid VehicleComponentType: ".to_owned();
        Err(prefix.concat(s))
    }

    /// Every value, in declaration order.
    pub fn all() -> (r: Vec<VehicleComponentType>)
        ensures
            r@ == VehicleComponentType::all_values(),
    {
        let r = vec![VehicleComponentType::Hood, VehicleComponentType::Trunk, VehicleComponentType::DoorFrontLeft, VehicleComponentType::DoorFrontRight, VehicleComponentType::DoorRearLeft, VehicleComponentType::DoorRearRight, VehicleComponentType::WindowFrontLeft, VehicleComponentType::WindowFrontRight, VehicleComponentType::WindowRearLeft, VehicleComponentType::WindowRearRight, VehicleComponentType::SideMirrors, VehicleComponentType::SideMirrorRight, VehicleComponentType::SideMirrorLeft];
        assert(r@ =~= VehicleComponentType::all_values());
        r
    }

    /// The written names of the values, as documents write them: each value's name, and
    /// the value that each name is read as.
    pub proof fn lemma_written_names()
        ensures
            VehicleComponentType::Hood.wire_name() == "hood"@,
            VehicleComponentType::from_wire_name("hood"@) == Some(VehicleComponentType::Hood),
            VehicleComponentType::Trunk.wire_name() == "trunk"@,
            VehicleComponentType::from_wire_name("trunk"@) == Some(VehicleComponentType::Trunk),
            VehicleComponentType::DoorFrontLeft.wire_name() == "doorFrontLeft"@,
            VehicleComponentType::from_wire_name("doorFrontLeft"@) == Some(VehicleComponentType::DoorFrontLeft),
            VehicleComponentType::DoorFrontRight.wire_name() == "doorFrontRight"@,
            VehicleComponentType::from_wire_name("doorFrontRight"@) == Some(VehicleComponentType::DoorFrontRight),
            VehicleComponentType::DoorRearLeft.wire_name() == "doorRearLeft"@,
            VehicleComponentType::from_wire_name("doorRearLeft"@) == Some(VehicleComponentType::DoorRearLeft),
            VehicleComponentType::DoorRearRight.wire_name() == "doorRearRight"@,
            VehicleComponentType::from_wire_name("doorRearRight"@) == Some(VehicleComponentType::DoorRearRight),
            VehicleComponentType::WindowFrontLeft.wire_name() == "windowFrontLeft"@,
            VehicleComponentType::from_wire_name("windowFrontLeft"@) == Some(VehicleComponentType::WindowFrontLeft),
            VehicleComponentType::WindowFrontRight.wire_name() == "windowFrontRight"@,
            VehicleComponentType::from_wire_name("windowFrontRight"@) == Some(VehicleComponentType::WindowFrontRight),
            VehicleComponentType::WindowRearLeft.wire_name() == "windowRearLeft"@,
            VehicleComponentType::from_wire_name("windowRearLeft"@) == Some(VehicleComponentType::WindowRearLeft),
            VehicleComponentType::WindowRearRight.wire_name() == "windowRearRight"@,
            VehicleComponentType::from_wire_name("windowRearRight"@) == Some(VehicleComponentType::WindowRearRight),
            VehicleComponentType::SideMirrors.wire_name() == "sideMirrors"@,
            VehicleComponentType::from_wire_name("sideMirrors"@) == Some(VehicleComponentType::SideMirrors),
            VehicleComponentType::SideMirrorRight.wire_name() == "sideMirrorRight"@,
            VehicleComponentType::from_wire_name("sideMirrorRight"@) == Some(VehicleComponentType::SideMirrorRight),
            VehicleComponentType::SideMirrorLeft.wire_name() == "sideMirrorLeft"@,
            VehicleComponentType::from_wire_name("sideMirrorLeft"@) == Some(VehicleComponentType::SideMirrorLeft),
    {
        reveal_strlit("hood");
        assert("hood"@ =~= VehicleComponentType::Hood.wire_name());
        VehicleComponentType::lemma_wire_name_round_trip(VehicleComponentType::Hood);
        reveal_strlit("trunk");
        assert("trunk"@ =~= VehicleComponentType::Trunk.wire_name());
        VehicleComponentType::lemma_wire_name_round_trip(VehicleComponentType::Trunk);
        reveal_strlit("doorFrontLeft");
        assert("doorFrontLeft"@ =~= VehicleComponentType::DoorFrontLeft.wire_name());
        VehicleComponentType::lemma_wire_name_round_trip(VehicleComponentType::DoorFrontLeft);
        reveal_strlit("doorFrontRight");
        assert("doorFrontRight"@ =~= VehicleComponentType::DoorFrontRight.wire_name());
        VehicleComponentType::lemma_wire_name_round_trip(VehicleComponentType::DoorFrontRight);
        reveal_strlit("doorRearLeft");
        assert("doorRearLeft"@ =~= VehicleComponentType::DoorRearLeft.wire_name());
        VehicleComponentType::lemma_wire_name_round_trip(VehicleComponentType::DoorRearLeft);
        reveal_strlit("doorRearRight");
        assert("doorRearRight"@ =~= VehicleComponentType::DoorRearRight.wire_name());
        VehicleComponentType::lemma_wire_name_round_trip(VehicleComponentType::DoorRearRight);
        reveal_strlit("windowFrontLeft");
        assert("windowFrontLeft"@ =~= VehicleComponentType::WindowFrontLeft.wire_name());
        VehicleComponentType::lemma_wire_name_round_trip(VehicleComponentType::WindowFrontLeft);
        reveal_strlit("windowFrontRight");
        assert("windowFrontRight"@ =~= VehicleComponentType::WindowFrontRight.wire_name());
        VehicleComponentType::lemma_wire_name_round_trip(VehicleComponentType::WindowFrontRight);
        reveal_strlit("windowRearLeft");
        assert("windowRearLeft"@ =~= VehicleComponentType::WindowRearLeft.wire_name());
        VehicleComponentType::lemma_wire_name_round_trip(VehicleComponentType::WindowRearLeft);
        reveal_strlit("windowRearRight");
        assert("windowRearRight"@ =~= VehicleComponentType::WindowRearRight.wire_name());
        VehicleComponentType::lemma_wire_name_round_trip(VehicleComponentType::WindowRearRight);
        reveal_strlit("sideMirrors");
        assert("sideMirrors"@ =~= VehicleComponentType::SideMirrors.wire_name());
        VehicleComponentType::lemma_wire_name_round_trip(VehicleComponentType::SideMirrors);
        reveal_strlit("sideMirrorRight");
        assert("sideMirrorRight"@ =~= VehicleComponentType::SideMirrorRight.wire_name());
        VehicleComponentType::lemma_wire_name_round_trip(VehicleComponentType::SideMirrorRight);
        reveal_strlit("sideMirrorLeft");
        assert("sideMirrorLeft"@ =~= VehicleComponentType::SideMirrorLeft.wire_name());
        VehicleComponentType::lemma_wire_name_round_trip(VehicleComponentType::SideMirrorLeft);
    }

    /// A text that parses to a value is that value's name.
    pub proof fn lemma_parsed_text_is_wire_name(s: Seq<char>)
        ensures
            VehicleComponentType::from_wire_name(s) matches Some(v) ==> v.wire_name() == s,
    {
    }

    /// The name of a value parses back to that value.
    pub proof fn lemma_wire_name_round_trip(v: VehicleComponentType)
        ensures
            VehicleComponentType::from_wire_name(v.wire_name()) == Some(v),
    {
        match v {
            VehicleComponentType::Hood => {
            },
            VehicleComponentType::Trunk => {
                assert(VehicleComponentType::Trunk.wire_name().len() != VehicleComponentType::Hood.wire_name().len());
            },
            VehicleComponentType::DoorFrontLeft => {
                assert(VehicleComponentType::DoorFrontLeft.wire_name().len() != VehicleComponentType::Hood.wire_name().len());
                assert(VehicleComponentType::DoorFrontLeft.wire_name().len() != VehicleComponentType::Trunk.wire_name().len());
            },
            VehicleComponentType::DoorFrontRight => {
                assert(VehicleComponentType::DoorFrontRight.wire_name().len() != VehicleComponentType::Hood.wire_name().len());
                assert(VehicleComponentType::DoorFrontRight.wire_name().len() != VehicleComponentType::Trunk.wire_name().len());
                assert(VehicleComponentType::DoorFrontRight.wire_name().len() != VehicleComponentType::DoorFrontLeft.wire_name().len());
            },
            VehicleComponentType::DoorRearLeft => {
                assert(VehicleComponentType::DoorRearLeft.wire_name().len() != VehicleComponentType::Hood.wire_name().len());
                assert(VehicleComponentType::DoorRearLeft.wire_name().len() != VehicleComponentType::Trunk.wire_name().len());
                assert(VehicleComponentType::DoorRearLeft.wire_name().len() != VehicleComponentType::DoorFrontLeft.wire_name().len());
                assert(VehicleComponentType::DoorRearLeft.wire_name().len() != VehicleComponentType::DoorFrontRight.wire_name().len());
            },
            VehicleComponentType::DoorRearRight => {
                assert(VehicleComponentType::DoorRearRight.wire_name().len() != VehicleComponentType::Hood.wire_name().len());
                assert(VehicleComponentType::DoorRearRight.wire_name().len() != VehicleComponentType::Trunk.wire_name().len());
                assert(VehicleComponentType::DoorRearRight.wire_name()[4] != VehicleComponentType::DoorFrontLeft.wire_name()[4]);
                assert(VehicleComponentType::DoorRearRight.wire_name().len() != VehicleComponentType::DoorFrontRight.wire_name().len());
                assert(VehicleComponentType::DoorRearRight.wire_name().len() != VehicleComponentType::DoorRearLeft.wire_name().len());
            },
            VehicleComponentType::WindowFrontLeft => {
                assert(VehicleComponentType::WindowFrontLeft.wire_name().len() != VehicleComponentType::Hood.wire_name().len());
                assert(VehicleComponentType::WindowFrontLeft.wire_name().len() != VehicleComponentType::Trunk.wire_name().len());
                assert(VehicleComponentType::WindowFrontLeft.wire_name().len() != VehicleComponentType::DoorFrontLeft.wire_name().len());
                assert(VehicleComponentType::WindowFrontLeft.wire_name().len() != VehicleComponentType::DoorFrontRight.wire_name().len());
                assert(VehicleComponentType::WindowFrontLeft.wire_name().len() != VehicleComponentType::DoorRearLeft.wire_name().len());
                assert(VehicleComponentType::WindowFrontLeft.wire_name().len() != VehicleComponentType::DoorRearRight.wire_name().len());
            },
            VehicleComponentType::WindowFrontRight => {
                assert(VehicleComponentType::WindowFrontRight.wire_name().len() != VehicleComponentType::Hood.wire_name().len());
                assert(VehicleComponentType::WindowFrontRight.wire_name().len() != VehicleComponentType::Trunk.wire_name().len());
                assert(VehicleComponentType::WindowFrontRight.wire_name().len() != VehicleComponentType::DoorFrontLeft.wire_name().len());
                assert(VehicleComponentType::WindowFrontRight.wire_name().len() != VehicleComponentType::DoorFrontRight.wire_name().len());
                assert(VehicleComponentType::WindowFrontRight.wire_name().len() != VehicleComponentType::DoorRearLeft.wire_name().len());
                assert(VehicleComponentType::WindowFrontRight.wire_name().len() != VehicleComponentType::DoorRearRight.wire_name().len());
                assert(VehicleComponentType::WindowFrontRight.wire_name().len() != VehicleComponentType::WindowFrontLeft.wire_name().len());
            },
            VehicleComponentType::WindowRearLeft => {
                assert(VehicleComponentType::WindowRearLeft.wire_name().len() != VehicleComponentType::Hood.wire_name().len());
                assert(VehicleComponentType::WindowRearLeft.wire_name().len() != VehicleComponentType::Trunk.wire_name().len());
                assert(VehicleComponentType::WindowRearLeft.wire_name().len() != VehicleComponentType::DoorFrontLeft.wire_name().len());
                assert(VehicleComponentType::WindowRearLeft.wire_name()[0] != VehicleComponentType::DoorFrontRight.wire_name()[0]);
                assert(VehicleComponentType::WindowRearLeft.wire_name().len() != VehicleComponentType::DoorRearLeft.wire_name().len());
                assert(VehicleComponentType::WindowRearLeft.wire_name().len() != VehicleComponentType::DoorRearRight.wire_name().len());
                assert(VehicleComponentType::WindowRearLeft.wire_name().len() != VehicleComponentType::WindowFrontLeft.wire_name().len());
                assert(VehicleComponentType::WindowRearLeft.wire_name().len() != VehicleComponentType::WindowFrontRight.wire_name().len());
            },
            VehicleComponentType::WindowRearRight => {
                assert(VehicleComponentType::WindowRearRight.wire_name().len() != VehicleComponentType::Hood.wire_name().len());
                assert(VehicleComponentType::WindowRearRight.wire_name().len() != VehicleComponentType::Trunk.wire_name().len());
                assert(VehicleComponentType::WindowRearRight.wire_name().len() != VehicleComponentType::DoorFrontLeft.wire_name().len());
                assert(VehicleComponentType::WindowRearRight.wire_name().len() != VehicleComponentType::DoorFrontRight.wire_name().len());
                assert(VehicleComponentType::WindowRearRight.wire_name().len() != VehicleComponentType::DoorRearLeft.wire_name().len());
                assert(VehicleComponentType::WindowRearRight.wire_name().len() != VehicleComponentType::DoorRearRight.wire_name().len());
                assert(VehicleComponentType::WindowRearRight.wire_name()[6] != VehicleComponentType::WindowFrontLeft.wire_name()[6]);
                assert(VehicleComponentType::WindowRearRight.wire_name().len() != VehicleComponentType::WindowFrontRight.wire_name().len());
                assert(VehicleComponentType::WindowRearRight.wire_name().len() != VehicleComponentType::WindowRearLeft.wire_name().len());
            },
            VehicleComponentType::SideMirrors => {
                assert(VehicleComponentType::SideMirrors.wire_name().len() != VehicleComponentType::Hood.wire_name().len());
                assert(VehicleComponentType::SideMirrors.wire_name().len() != VehicleComponentType::Trunk.wire_name().len());
                assert(VehicleComponentType::SideMirrors.wire_name().len() != VehicleComponentType::DoorFrontLeft.wire_name().len());
                assert(VehicleComponentType::SideMirrors.wire_name().len() != VehicleComponentType::DoorFrontRight.wire_name().len());
                assert(VehicleComponentType::SideMirrors.wire_name().len() != VehicleComponentType::DoorRearLeft.wire_name().len());
                assert(VehicleComponentType::SideMirrors.wire_name().len() != VehicleComponentType::DoorRearRight.wire_name().len());
                assert(VehicleComponentType::SideMirrors.wire_name().len() != VehicleComponentType::WindowFrontLeft.wire_name().len());
                assert(VehicleComponentType::SideMirrors.wire_name().len() != VehicleComponentType::WindowFrontRight.wire_name().len());
                assert(VehicleComponentType::SideMirrors.wire_name().len() != VehicleComponentType::WindowRearLeft.wire_name().len());
                assert(VehicleComponentType::SideMirrors.wire_name().len() != VehicleComponentType::WindowRearRight.wire_name().len());
            },
            VehicleComponentType::SideMirrorRight => {
                assert(VehicleComponentType::SideMirrorRight.wire_name().len() != VehicleComponentType::Hood.wire_name().len());
                assert(VehicleComponentType::SideMirrorRight.wire_name().len() != VehicleComponentType::Trunk.wire_name().len());
                assert(VehicleComponentType::SideMirrorRight.wire_name().len() != VehicleComponentType::DoorFrontLeft.wire_name().len());
                assert(VehicleComponentType::SideMirrorRight.wire_name().len() != VehicleComponentType::DoorFrontRight.wire_name().len());
                assert(VehicleComponentType::SideMirrorRight.wire_name().len() != VehicleComponentType::DoorRearLeft.wire_name().len());
                assert(VehicleComponentType::SideMirrorRight.wire_name().len() != VehicleComponentType::DoorRearRight.wire_name().len());
                assert(VehicleComponentType::SideMirrorRight.wire_name()[0] != VehicleComponentType::WindowFrontLeft.wire_name()[0]);
                assert(VehicleComponentType::SideMirrorRight.wire_name().len() != VehicleComponentType::WindowFrontRight.wire_name().len());
                assert(VehicleComponentType::SideMirrorRight.wire_name().len() != VehicleComponentType::WindowRearLeft.wire_name().len());
                assert(VehicleComponentType::SideMirrorRight.wire_name()[0] != VehicleComponentType::WindowRearRight.wire_name()[0]);
                assert(VehicleComponentType::SideMirrorRight.wire_name().len() != VehicleComponentType::SideMirrors.wire_name().len());
            },
            VehicleComponentType::SideMirrorLeft => {
                assert(VehicleComponentType::SideMirrorLeft.wire_name().len() != VehicleComponentType::Hood.wire_name().len());
                assert(VehicleComponentType::SideMirrorLeft.wire_name().len() != VehicleComponentType::Trunk.wire_name().len());
                assert(VehicleComponentType::SideMirrorLeft.wire_name().len() != VehicleComponentType::DoorFrontLeft.wire_name().len());
                assert(VehicleComponentType::SideMirrorLeft.wire_name()[0] != VehicleComponentType::DoorFrontRight.wire_name()[0]);
                assert(VehicleComponentType::SideMirrorLeft.wire_name().len() != VehicleComponentType::DoorRearLeft.wire_name().len());
                assert(VehicleComponentType::SideMirrorLeft.wire_name().len() != VehicleComponentType::DoorRearRight.wire_name().len());
                assert(VehicleComponentType::SideMirrorLeft.wire_name().len() != VehicleComponentType::WindowFrontLeft.wire_name().len());
                assert(VehicleComponentType::SideMirrorLeft.wire_name().len() != VehicleComponentType::WindowFrontRight.wire_name().len());
                assert(VehicleComponentType::SideMirrorLeft.wire_name()[0] != VehicleComponentType::WindowRearLeft.wire_name()[0]);
                assert(VehicleComponentType::SideMirrorLeft.wire_name().len() != VehicleComponentType::WindowRearRight.wire_name().len());
                assert(VehicleComponentType::SideMirrorLeft.wire_name().len() != VehicleComponentType::SideMirrors.wire_name().len());
                assert(VehicleComponentType::SideMirrorLeft.wire_name().len() != VehicleComponentType::SideMirrorRight.wire_name().len());
            },
        }
    }

}

impl Duplicate for VehicleComponentType {
    open spec fn same(&self, other: &Self) -> bool {
        *self == *other
    }

    fn copied(&self) -> (r: VehicleComponentType) {
        *self
    }
}

impl ParamValue for VehicleComponentType {
    open spec fn accepts(s: Seq<char>) -> bool {
        VehicleComponentType::from_wire_name(s) is Some
    }

    open spec fn denotes(s: Seq<char>, v: VehicleComponentType) -> bool {
        VehicleComponentType::from_wire_name(s) == Some(v)
    }

    open spec fn type_label() -> Seq<char> {
        "VehicleComponentType"@
    }

    fn parse_text(s: &str) -> (r: Option<VehicleComponentType>) {
        match VehicleComponentType::from_wire(s) {
            Ok(v) => Some(v),
            Err(_) => None,
        }
    }

    fn kind_name() -> (r: String) {
        "VehicleComponentType".to_owned()
    }

    proof fn lemma_same_is_equal(a: &Self, b: &Self) {
    }
}

impl std::str::FromStr for VehicleComponentType {
    type Err = String;

    fn from_str(s: &str) -> Result<VehicleComponentType, String> {
        VehicleComponentType::from_wire(s)
    }
}

/// Vehicle light type enumeration
#[derive(Debug, Clone, Copy, PartialEq, Eq, Hash)]
pub enum VehicleLightType {
    DaytimeRunningLights,
    LowBeam,
    HighBeam,
    FogLights,
    FogLightsFront,
    FogLightsRear,
    BrakeLights,
    WarningLights,
    IndicatorLeft,
    IndicatorRight,
    ReversingLights,
    LicensePlateIllumination,
    SpecialPurposeLights,
}

impl VehicleLightType {
    /// The name under which this value is written.
    pub open spec fn wire_name(self) -> Seq<char> {
        match self {
            VehicleLightType::DaytimeRunningLights => seq!['d', 'a', 'y', 't', 'i', 'm', 'e', 'R', 'u', 'n', 'n', 'i', 'n', 'g', 'L', 'i', 'g', 'h', 't', 's'],
            VehicleLightType::LowBeam => seq!['l', 'o', 'w', 'B', 'e', 'a', 'm'],
            VehicleLightType::HighBeam => seq!['h', 'i', 'g', 'h', 'B', 'e', 'a', 'm'],
            VehicleLightType::FogLights => seq!['f', 'o', 'g', 'L', 'i', 'g', 'h', 't', 's'],
            VehicleLightType::FogLightsFront => seq!['f', 'o', 'g', 'L', 'i', 'g', 'h', 't', 's', 'F', 'r', 'o', 'n', 't'],
            VehicleLightType::FogLightsRear => seq!['f', 'o', 'g', 'L', 'i', 'g', 'h', 't', 's', 'R', 'e', 'a', 'r'],
            VehicleLightType::BrakeLights => seq!['b', 'r', 'a', 'k', 'e', 'L', 'i', 'g', 'h', 't', 's'],
            VehicleLightType::WarningLights => seq!['w', 'a', 'r', 'n', 'i', 'n', 'g', 'L', 'i', 'g', 'h', 't', 's'],
            VehicleLightType::IndicatorLeft => seq!['i', 'n', 'd', 'i', 'c', 'a', 't', 'o', 'r', 'L', 'e', 'f', 't'],
            VehicleLightType::IndicatorRight => seq!['i', 'n', 'd', 'i', 'c', 'a', 't', 'o', 'r', 'R', 'i', 'g', 'h', 't'],
            VehicleLightType::ReversingLights => seq!['r', 'e', 'v', 'e', 'r', 's', 'i', 'n', 'g', 'L', 'i', 'g', 'h', 't', 's'],
            VehicleLightType::LicensePlateIllumination => seq!['l', 'i', 'c', 'e', 'n', 's', 'e', 'P', 'l', 'a', 't', 'e', 'I', 'l', 'l', 'u', 'm', 'i', 'n', 'a', 't', 'i', 'o', 'n'],
            VehicleLightType::SpecialPurposeLights => seq!['s', 'p', 'e', 'c', 'i', 'a', 'l', 'P', 'u', 'r', 'p', 'o', 's', 'e', 'L', 'i', 'g', 'h', 't', 's'],
        }
    }

    /// The value written under `s`, if any.
    pub open spec fn from_wire_name(s: Seq<char>) -> Option<VehicleLightType> {
        if s == VehicleLightType::DaytimeRunningLights.wire_name() {
            Some(VehicleLightType::DaytimeRunningLights)
        } else if s == VehicleLightType::LowBeam.wire_name() {
            Some(VehicleLightType::LowBeam)
        } else if s == VehicleLightType::HighBeam.wire_name() {
            Some(VehicleLightType::HighBeam)
        } else if s == VehicleLightType::FogLights.wire_name() {
            Some(VehicleLightType::FogLights)
        } else if s == VehicleLightType::FogLightsFront.wire_name() {
            Some(VehicleLightType::FogLightsFront)
        } else if s == VehicleLightType::FogLightsRear.wire_name() {
            Some(VehicleLightType::FogLightsRear)
        } else if s == VehicleLightType::BrakeLights.wire_name() {
            Some(VehicleLightType::BrakeLights)
        } else if s == VehicleLightType::WarningLights.wire_name() {
            Some(VehicleLightType::WarningLights)
        } else if s == VehicleLightType::IndicatorLeft.wire_name() {
            Some(VehicleLightType::IndicatorLeft)
        } else if s == VehicleLightType::IndicatorRight.wire_name() {
            Some(VehicleLightType::IndicatorRight)
        } else if s == VehicleLightType::ReversingLights.wire_name() {
            Some(VehicleLightType::ReversingLights)
        } else if s == VehicleLightType::LicensePlateIllumination.wire_name() {
            Some(VehicleLightType::LicensePlateIllumination)
        } else if s == VehicleLightType::SpecialPurposeLights.wire_name() {
            Some(VehicleLightType::SpecialPurposeLights)
        } else {
            None
        }
    }

    /// Every value, in declaration order.
    pub open spec fn all_values() -> Seq<VehicleLightType> {
        seq![VehicleLightType::DaytimeRunningLights, VehicleLightType::LowBeam, VehicleLightType::HighBeam, VehicleLightType::FogLights, VehicleLightType::FogLightsFront, VehicleLightType::FogLightsRear, VehicleLightType::BrakeLights, VehicleLightType::WarningLights, VehicleLightType::IndicatorLeft, VehicleLightType::IndicatorRight, VehicleLightType::ReversingLights, VehicleLightType::LicensePlateIllumination, VehicleLightType::SpecialPurposeLights]
    }

    /// The name under which this value is written.
    pub fn as_str(&self) -> (r: &'static str)
        ensures
            r@ == self.wire_name(),
    {
        match self {
            VehicleLightType::DaytimeRunningLights => {
                proof {
                    reveal_strlit("daytimeRunningLights");
                }
                "daytimeRunningLights"
            },
            VehicleLightType::LowBeam => {
                proof {
                    reveal_strlit("lowBeam");
                }
                "lowBeam"
            },
            VehicleLightType::HighBeam => {
                proof {
                    reveal_strlit("highBeam");
                }
                "highBeam"
            },
            VehicleLightType::FogLights => {
                proof {
                    reveal_strlit("fogLights");
                }
                "fogLights"
            },
            VehicleLightType::FogLightsFront => {
                proof {
                    reveal_strlit("fogLightsFront");
                }
                "fogLightsFront"
            },
            VehicleLightType::FogLightsRear => {
                proof {
                    reveal_strlit("fogLightsRear");
                }
                "fogLightsRear"
            },
            VehicleLightType::BrakeLights => {
                proof {
                    reveal_strlit("brakeLights");
                }
                "brakeLights"
            },
            VehicleLightType::WarningLights => {
                proof {
                    reveal_strlit("warningLights");
                }
                "warningLights"
            },
            VehicleLightType::IndicatorLeft => {
                proof {
                    reveal_strlit("indicatorLeft");
                }
                "indicatorLeft"
            },
            VehicleLightType::IndicatorRight => {
                proof {
                    reveal_strlit("indicatorRight");
                }
                "indicatorRight"
            },
            VehicleLightType::ReversingLights => {
                proof {
                    reveal_strlit("reversingLights");
                }
                "reversingLights"
            },
            VehicleLightType::LicensePlateIllumination => {
                proof {
                    reveal_strlit("licensePlateIllumination");
                }
                "licensePlateIllumination"
            },
            VehicleLightType::SpecialPurposeLights => {
                proof {
                    reveal_strlit("specialPurposeLights");
                }
                "specialPurposeLights"
            },
        }
    }

    /// The name under which this value is written, as an owned string.
    pub fn to_string(&self) -> (r: String)
        ensures
            r@ == self.wire_name(),
    {
        self.as_str().to_owned()
    }

    /// The value written under `s`; an error message naming `s` when no value is.
    pub fn from_wire(s: &str) -> (r: Result<VehicleLightType, String>)
        ensures
            match r {
                Ok(v) => VehicleLightType::from_wire_name(s@) == Some(v),
                Err(m) => VehicleLightType::from_wire_name(s@) is None && m@ == "Invalid VehicleLightType: "@ + s@,
            },
    {
        if str_eq(s, VehicleLightType::DaytimeRunningLights.as_str()) {
            return Ok(VehicleLightType::DaytimeRunningLights);
        }
        if str_eq(s, VehicleLightType::LowBeam.as_str()) {
            return Ok(VehicleLightType::LowBeam);
        }
        if str_eq(s, VehicleLightType::HighBeam.as_str()) {
            return Ok(VehicleLightType::HighBeam);
        }
        if str_eq(s, VehicleLightType::FogLights.as_str()) {
            return Ok(VehicleLightType::FogLights);
        }
        if str_eq(s, VehicleLightType::FogLightsFront.as_str()) {
            return Ok(VehicleLightType::FogLightsFront);
        }
        if str_eq(s, VehicleLightType::FogLightsRear.as_str()) {
            return Ok(VehicleLightType::FogLightsRear);
        }
        if str_eq(s, VehicleLightType::BrakeLights.as_str()) {
            return Ok(VehicleLightType::BrakeLights);
        }
        if str_eq(s, VehicleLightType::WarningLights.as_str()) {
            return Ok(VehicleLightType::WarningLights);
        }
        if str_eq(s, VehicleLightType::IndicatorLeft.as_str()) {
            return Ok(VehicleLightType::IndicatorLeft);
        }
        if str_eq(s, VehicleLightType::IndicatorRight.as_str()) {
            return Ok(VehicleLightType::IndicatorRight);
        }
        if str_eq(s, VehicleLightType::ReversingLights.as_str()) {
            return Ok(VehicleLightType::ReversingLights);
        }
        if str_eq(s, VehicleLightType::LicensePlateIllumination.as_str()) {
            return Ok(VehicleLightType::LicensePlateIllumination);
        }
        if str_eq(s, VehicleLightType::SpecialPurposeLights.as_str()) {
            return Ok(VehicleLightType::SpecialPurposeLights);
        }
        let prefix: String = "Invalid VehicleLightType: ".to_owned();
        Err(prefix.concat(s))
    }

    /// Every value, in declaration order.
    pub fn all() -> (r: Vec<VehicleLightType>)
        ensures
            r@ == VehicleLightType::all_values(),
    {
        let r = vec![VehicleLightType::DaytimeRunningLights, VehicleLightType::LowBeam, VehicleLightType::HighBeam, VehicleLightType::FogLights, VehicleLightType::FogLightsFront, VehicleLightType::FogLightsRear, VehicleLightType::BrakeLights, VehicleLightType::WarningLights, VehicleLightType::IndicatorLeft, VehicleLightType::IndicatorRight, VehicleLightType::ReversingLights, VehicleLightType::LicensePlateIllumination, VehicleLightType::SpecialPurposeLights];
        assert(r@ =~= VehicleLightType::all_values());
        r
    }

    /// The written names of the values, as documents write them: each value's name, and
    /// the value that each name is read as.
    pub proof fn lemma_written_names()
        ensures
            VehicleLightType::DaytimeRunningLights.wire_name() == "daytimeRunningLights"@,
            VehicleLightType::from_wire_name("daytimeRunningLights"@) == Some(VehicleLightType::DaytimeRunningLights),
            VehicleLightType::LowBeam.wire_name() == "lowBeam"@,
            VehicleLightType::from_wire_name("lowBeam"@) == Some(VehicleLightType::LowBeam),
            VehicleLightType::HighBeam.wire_name() == "highBeam"@,
            VehicleLightType::from_wire_name("highBeam"@) == Some(VehicleLightType::HighBeam),
            VehicleLightType::FogLights.wire_name() == "fogLights"@,
            VehicleLightType::from_wire_name("fogLights"@) == Some(VehicleLightType::FogLights),
            VehicleLightType::FogLightsFront.wire_name() == "fogLightsFront"@,
            VehicleLightType::from_wire_name("fogLightsFront"@) == Some(VehicleLightType::FogLightsFront),
            VehicleLightType::FogLightsRear.wire_name() == "fogLightsRear"@,
            VehicleLightType::from_wire_name("fogLightsRear"@) == Some(VehicleLightType::FogLightsRear),
            VehicleLightType::BrakeLights.wire_name() == "brakeLights"@,
            VehicleLightType::from_wire_name("brakeLights"@) == Some(VehicleLightType::BrakeLights),
            VehicleLightType::WarningLights.wire_name() == "warningLights"@,
            VehicleLightType::from_wire_name("warningLights"@) == Some(VehicleLightType::WarningLights),
            VehicleLightType::IndicatorLeft.wire_name() == "indicatorLeft"@,
            VehicleLightType::from_wire_name("indicatorLeft"@) == Some(VehicleLightType::IndicatorLeft),
            VehicleLightType::IndicatorRight.wire_name() == "indicatorRight"@,
            VehicleLightType::from_wire_name("indicatorRight"@) == Some(VehicleLightType::IndicatorRight),
            VehicleLightType::ReversingLights.wire_name() == "reversingLights"@,
            VehicleLightType::from_wire_name("reversingLights"@) == Some(VehicleLightType::ReversingLights),
            VehicleLightType::LicensePlateIllumination.wire_name() == "licensePlateIllumination"@,
            VehicleLightType::from_wire_name("licensePlateIllumination"@) == Some(VehicleLightType::LicensePlateIllumination),
            VehicleLightType::SpecialPurposeLights.wire_name() == "specialPurposeLights"@,
            VehicleLightType::from_wire_name("specialPurposeLights"@) == Some(VehicleLightType::SpecialPurposeLights),
    {
        reveal_strlit("daytimeRunningLights");
        assert("daytimeRunningLights"@ =~= VehicleLightType::DaytimeRunningLights.wire_name());
        VehicleLightType::lemma_wire_name_round_trip(VehicleLightType::DaytimeRunningLights);
        reveal_strlit("lowBeam");
        assert("lowBeam"@ =~= VehicleLightType::LowBeam.wire_name());
        VehicleLightType::lemma_wire_name_round_trip(VehicleLightType::LowBeam);
        reveal_strlit("highBeam");
        assert("highBeam"@ =~= VehicleLightType::HighBeam.wire_name());
        VehicleLightType::lemma_wire_name_round_trip(VehicleLightType::HighBeam);
        reveal_strlit("fogLights");
        assert("fogLights"@ =~= VehicleLightType::FogLights.wire_name());
        VehicleLightType::lemma_wire_name_round_trip(VehicleLightType::FogLights);
        reveal_strlit("fogLightsFront");
        assert("fogLightsFront"@ =~= VehicleLightType::FogLightsFront.wire_name());
        VehicleLightType::lemma_wire_name_round_trip(VehicleLightType::FogLightsFront);
        reveal_strlit("fogLightsRear");
        assert("fogLightsRear"@ =~= VehicleLightType::FogLightsRear.wire_name());
        VehicleLightType::lemma_wire_name_round_trip(VehicleLightType::FogLightsRear);
        reveal_strlit("brakeLights");
        assert("brakeLights"@ =~= VehicleLightType::BrakeLights.wire_name());
        VehicleLightType::lemma_wire_name_round_trip(VehicleLightType::BrakeLights);
        reveal_strlit("warningLights");
        assert("warningLights"@ =~= VehicleLightType::WarningLights.wire_name());
        VehicleLightType::lemma_wire_name_round_trip(VehicleLightType::WarningLights);
        reveal_strlit("indicatorLeft");
        assert("indicatorLeft"@ =~= VehicleLightType::IndicatorLeft.wire_name());
        VehicleLightType::lemma_wire_name_round_trip(VehicleLightType::IndicatorLeft);
        reveal_strlit("indicatorRight");
        assert("indicatorRight"@ =~= VehicleLightType::IndicatorRight.wire_name());
        VehicleLightType::lemma_wire_name_round_trip(VehicleLightType::IndicatorRight);
        reveal_strlit("reversingLights");
        assert("reversingLights"@ =~= VehicleLightType::ReversingLights.wire_name());
        VehicleLightType::lemma_wire_name_round_trip(VehicleLightType::ReversingLights);
        reveal_strlit("licensePlateIllumination");
        assert("licensePlateIllumination"@ =~= VehicleLightType::LicensePlateIllumination.wire_name());
        VehicleLightType::lemma_wire_name_round_trip(VehicleLightType::LicensePlateIllumination);
        reveal_strlit("specialPurposeLights");
        assert("specialPurposeLights"@ =~= VehicleLightType::SpecialPurposeLights.wire_name());
        VehicleLightType::lemma_wire_name_round_trip(VehicleLightType::SpecialPurposeLights);
    }

    /// A text that parses to a value is that value's name.
    pub proof fn lemma_parsed_text_is_wire_name(s: Seq<char>)
        ensures
            VehicleLightType::from_wire_name(s) matches Some(v) ==> v.wire_name() == s,
    {
    }

    /// The name of a value parses back to that value.
    pub proof fn lemma_wire_name_round_trip(v: VehicleLightType)
        ensures
            VehicleLightType::from_wire_name(v.wire_name()) == Some(v),
    {
        match v {
            VehicleLightType::DaytimeRunningLights => {
            },
            VehicleLightType::LowBeam => {
                assert(VehicleLightType::LowBeam.wire_name().len() != VehicleLightType::DaytimeRunningLights.wire_name().len());
            },
            VehicleLightType::HighBeam => {
                assert(VehicleLightType::HighBeam.wire_name().len() != VehicleLightType::DaytimeRunningLights.wire_name().len());
                assert(VehicleLightType::HighBeam.wire_name().len() != VehicleLightType::LowBeam.wire_name().len());
            },
            VehicleLightType::FogLights => {
                assert(VehicleLightType::FogLights.wire_name().len() != VehicleLightType::DaytimeRunningLights.wire_name().len());
                assert(VehicleLightType::FogLights.wire_name().len() != VehicleLightType::LowBeam.wire_name().len());
                assert(VehicleLightType::FogLights.wire_name().len() != VehicleLightType::HighBeam.wire_name().len());
            },
            VehicleLightType::FogLightsFront => {
                assert(VehicleLightType::FogLightsFront.wire_name().len() != VehicleLightType::DaytimeRunningLights.wire_name().len());
                assert(VehicleLightType::FogLightsFront.wire_name().len() != VehicleLightType::LowBeam.wire_name().len());
                assert(VehicleLightType::FogLightsFront.wire_name().len() != VehicleLightType::HighBeam.wire_name().len());
                assert(VehicleLightType::FogLightsFront.wire_name().len() != VehicleLightType::FogLights.wire_name().len());
            },
            VehicleLightType::FogLightsRear => {
                assert(VehicleLightType::FogLightsRear.wire_name().len() != VehicleLightType::DaytimeRunningLights.wire_name().len());
                assert(VehicleLightType::FogLightsRear.wire_name().len() != VehicleLightType::LowBeam.wire_name().len());
                assert(VehicleLightType::FogLightsRear.wire_name().len() != VehicleLightType::HighBeam.wire_name().len());
                assert(VehicleLightType::FogLightsRear.wire_name().len() != VehicleLightType::FogLights.wire_name().len());
                assert(VehicleLightType::FogLightsRear.wire_name().len() != VehicleLightType::FogLightsFront.wire_name().len());
            },
            VehicleLightType::BrakeLights => {
                assert(VehicleLightType::BrakeLights.wire_name().len() != VehicleLightType::DaytimeRunningLights.wire_name().len());
                assert(VehicleLightType::BrakeLights.wire_name().len() != VehicleLightType::LowBeam.wire_name().len());
                assert(VehicleLightType::BrakeLights.wire_name().len() != VehicleLightType::HighBeam.wire_name().len());
                assert(VehicleLightType::BrakeLights.wire_name().len() != VehicleLightType::FogLights.wire_name().len());
                assert(VehicleLightType::BrakeLights.wire_name().len() != VehicleLightType::FogLightsFront.wire_name().len());
                assert(VehicleLightType::BrakeLights.wire_name().len() != VehicleLightType::FogLightsRear.wire_name().len());
            },
            VehicleLightType::WarningLights => {
                assert(VehicleLightType::WarningLights.wire_name().len() != VehicleLightType::DaytimeRunningLights.wire_name().len());
                assert(VehicleLightType::WarningLights.wire_name().len() != VehicleLightType::LowBeam.wire_name().len());
                assert(VehicleLightType::WarningLights.wire_name().len() != VehicleLightType::HighBeam.wire_name().len());
                assert(VehicleLightType::WarningLights.wire_name().len() != VehicleLightType::FogLights.wire_name().len());
                assert(VehicleLightType::WarningLights.wire_name().len() != VehicleLightType::FogLightsFront.wire_name().len());
                assert(VehicleLightType::WarningLights.wire_name()[0] != VehicleLightType::FogLightsRear.wire_name()[0]);
                assert(VehicleLightType::WarningLights.wire_name().len() != VehicleLightType::BrakeLights.wire_name().len());
            },
            VehicleLightType::IndicatorLeft => {
                assert(VehicleLightType::IndicatorLeft.wire_name().len() != VehicleLightType::DaytimeRunningLights.wire_name().len());
                assert(VehicleLightType::IndicatorLeft.wire_name().len() != VehicleLightType::LowBeam.wire_name().len());
                assert(VehicleLightType::IndicatorLeft.wire_name().len() != VehicleLightType::HighBeam.wire_name().len());
                assert(VehicleLightType::IndicatorLeft.wire_name().len() != VehicleLightType::FogLights.wire_name().len());
                assert(VehicleLightType::IndicatorLeft.wire_name().len() != VehicleLightType::FogLightsFront.wire_name().len());
                assert(VehicleLightType::IndicatorLeft.wire_name()[0] != VehicleLightType::FogLightsRear.wire_name()[0]);
                assert(VehicleLightType::IndicatorLeft.wire_name().len() != VehicleLightType::BrakeLights.wire_name().len());
                assert(VehicleLightType::IndicatorLeft.wire_name()[0] != VehicleLightType::WarningLights.wire_name()[0]);
            },
            VehicleLightType::IndicatorRight => {
                assert(VehicleLightType::IndicatorRight.wire_name().len() != VehicleLightType::DaytimeRunningLights.wire_name().len());
                assert(VehicleLightType::IndicatorRight.wire_name().len() != VehicleLightType::LowBeam.wire_name().len());
                assert(VehicleLightType::IndicatorRight.wire_name().len() != VehicleLightType::HighBeam.wire_name().len());
                assert(VehicleLightType::IndicatorRight.wire_name().len() != VehicleLightType::FogLights.wire_name().len());
                assert(VehicleLightType::IndicatorRight.wire_name()[0] != VehicleLightType::FogLightsFront.wire_name()[0]);
                assert(VehicleLightType::IndicatorRight.wire_name().len() != VehicleLightType::FogLightsRear.wire_name().len());
                assert(VehicleLightType::IndicatorRight.wire_name().len() != VehicleLightType::BrakeLights.wire_name().len());
                assert(VehicleLightType::IndicatorRight.wire_name().len() != VehicleLightType::WarningLights.wire_name().len());
                assert(VehicleLightType::IndicatorRight.wire_name().len() != VehicleLightType::IndicatorLeft.wire_name().len());
            },
            VehicleLightType::ReversingLights => {
                assert(VehicleLightType::ReversingLights.wire_name().len() != VehicleLightType::DaytimeRunningLights.wire_name().len());
                assert(VehicleLightType::ReversingLights.wire_name().len() != VehicleLightType::LowBeam.wire_name().len());
                assert(VehicleLightType::ReversingLights.wire_name().len() != VehicleLightType::HighBeam.wire_name().len());
                assert(VehicleLightType::ReversingLights.wire_name().len() != VehicleLightType::FogLights.wire_name().len());
                assert(VehicleLightType::ReversingLights.wire_name().len() != VehicleLightType::FogLightsFront.wire_name().len());
                assert(VehicleLightType::ReversingLights.wire_name().len() != VehicleLightType::FogLightsRear.wire_name().len());
                assert(VehicleLightType::ReversingLights.wire_name().len() != VehicleLightType::BrakeLights.wire_name().len());
                assert(VehicleLightType::ReversingLights.wire_name().len() != VehicleLightType::WarningLights.wire_name().len());
                assert(VehicleLightType::ReversingLights.wire_name().len() != VehicleLightType::IndicatorLeft.wire_name().len());
                assert(VehicleLightType::ReversingLights.wire_name().len() != VehicleLightType::IndicatorRight.wire_name().len());
            },
            VehicleLightType::LicensePlateIllumination => {
                assert(VehicleLightType::LicensePlateIllumination.wire_name().len() != VehicleLightType::DaytimeRunningLights.wire_name().len());
                assert(VehicleLightType::LicensePlateIllumination.wire_name().len() != VehicleLightType::LowBeam.wire_name().len());
                assert(VehicleLightType::LicensePlateIllumination.wire_name().len() != VehicleLightType::HighBeam.wire_name().len());
                assert(VehicleLightType::LicensePlateIllumination.wire_name().len() != VehicleLightType::FogLights.wire_name().len());
                assert(VehicleLightType::LicensePlateIllumination.wire_name().len() != VehicleLightType::FogLightsFront.wire_name().len());
                assert(VehicleLightType::LicensePlateIllumination.wire_name().len() != VehicleLightType::FogLightsRear.wire_name().len());
                assert(VehicleLightType::LicensePlateIllumination.wire_name().len() != VehicleLightType::BrakeLights.wire_name().len());
                assert(VehicleLightType::LicensePlateIllumination.wire_name().len() != VehicleLightType::WarningLights.wire_name().len());
                assert(VehicleLightType::LicensePlateIllumination.wire_name().len() != VehicleLightType::IndicatorLeft.wire_name().len());
                assert(VehicleLightType::LicensePlateIllumination.wire_name().len() != VehicleLightType::IndicatorRight.wire_name().len());
                assert(VehicleLightType::LicensePlateIllumination.wire_name().len() != VehicleLightType::ReversingLights.wire_name().len());
            },
            VehicleLightType::SpecialPurposeLights => {
                assert(VehicleLightType::SpecialPurposeLights.wire_name()[0] != VehicleLightType::DaytimeRunningLights.wire_name()[0]);
                assert(VehicleLightType::SpecialPurposeLights.wire_name().len() != VehicleLightType::LowBeam.wire_name().len());
                assert(VehicleLightType::SpecialPurposeLights.wire_name().len() != VehicleLightType::HighBeam.wire_name().len());
                assert(VehicleLightType::SpecialPurposeLights.wire_name().len() != VehicleLightType::FogLights.wire_name().len());
                assert(VehicleLightType::SpecialPurposeLights.wire_name().len() != VehicleLightType::FogLightsFront.wire_name().len());
                assert(VehicleLightType::SpecialPurposeLights.wire_name().len() != VehicleLightType::FogLightsRear.wire_name().len());
                assert(VehicleLightType::SpecialPurposeLights.wire_name().len() != VehicleLightType::BrakeLights.wire_name().len());
                assert(VehicleLightType::SpecialPurposeLights.wire_name().len() != VehicleLightType::WarningLights.wire_name().len());
                assert(VehicleLightType::SpecialPurposeLights.wire_name().len() != VehicleLightType::IndicatorLeft.wire_name().len());
                assert(VehicleLightType::SpecialPurposeLights.wire_name().len() != VehicleLightType::IndicatorRight.wire_name().len());
                assert(VehicleLightType::SpecialPurposeLights.wire_name().len() != VehicleLightType::ReversingLights.wire_name().len());
                assert(VehicleLightType::SpecialPurposeLights.wire_name().len() != VehicleLightType::LicensePlateIllumination.wire_name().len());
            },
        }
    }

}

impl Duplicate for VehicleLightType {
    open spec fn same(&self, other: &Self) -> bool {
        *self == *other
    }

    fn copied(&self) -> (r: VehicleLightType) {
        *self
    }
}

impl ParamValue for VehicleLightType {
    open spec fn accepts(s: Seq<char>) -> bool {
        VehicleLightType::from_wire_name(s) is Some
    }

    open spec fn denotes(s: Seq<char>, v: VehicleLightType) -> bool {
        VehicleLightType::from_wire_name(s) == Some(v)
    }

    open spec fn type_label() -> Seq<char> {
        "VehicleLightType"@
    }

    fn parse_text(s: &str) -> (r: Option<VehicleLightType>) {
        match VehicleLightType::from_wire(s) {
            Ok(v) => Some(v),
            Err(_) => None,
        }
    }

    fn kind_name() -> (r: String) {
        "VehicleLightType".to_owned()
    }

    proof fn lemma_same_is_equal(a: &Self, b: &Self) {
    }
}

impl std::str::FromStr for VehicleLightType {
    type Err = String;

    fn from_str(s: &str) -> Result<VehicleLightType, String> {
        VehicleLightType::from_wire(s)
    }
}

/// Light mode enumeration
#[derive(Debug, Clone, Copy, PartialEq, Eq, Hash)]
pub enum LightMode {
    On,
    Off,
    Flashing,
}

impl LightMode {
    /// The name under which this value is written.
    pub open spec fn wire_name(self) -> Seq<char> {
        match self {
            LightMode::On => seq!['o', 'n'],
            LightMode::Off => seq!['o', 'f', 'f'],
            LightMode::Flashing => seq!['f', 'l', 'a', 's', 'h', 'i', 'n', 'g'],
        }
    }

    /// The value written under `s`, if any.
    pub open spec fn from_wire_name(s: Seq<char>) -> Option<LightMode> {
        if s == LightMode::On.wire_name() {
            Some(LightMode::On)
        } else if s == LightMode::Off.wire_name() {
            Some(LightMode::Off)
        } else if s == LightMode::Flashing.wire_name() {
            Some(LightMode::Flashing)
        } else {
            None
        }
    }

    /// Every value, in declaration order.
    pub open spec fn all_values() -> Seq<LightMode> {
        seq![LightMode::On, LightMode::Off, LightMode::Flashing]
    }

    /// The name under which this value is written.
    pub fn as_str(&self) -> (r: &'static str)
        ensures
            r@ == self.wire_name(),
    {
        match self {
            LightMode::On => {
                proof {
                    reveal_strlit("on");
                }
                "on"
            },
            LightMode::Off => {
                proof {
                    reveal_strlit("off");
                }
                "off"
            },
            LightMode::Flashing => {
                proof {
                    reveal_strlit("flashing");
                }
                "flashing"
            },
        }
    }

    /// The name under which this value is written, as an owned string.
    pub fn to_string(&self) -> (r: String)
        ensures
            r@ == self.wire_name(),
    {
        self.as_str().to_owned()
    }

    /// The value written under `s`; an error message naming `s` when no value is.
    pub fn from_wire(s: &str) -> (r: Result<LightMode, String>)
        ensures
            match r {
                Ok(v) => LightMode::from_wire_name(s@) == Some(v),
                Err(m) => LightMode::from_wire_name(s@) is None && m@ == "Invalid LightMode: "@ + s@,
            },
    {
        if str_eq(s, LightMode::On.as_str()) {
            return Ok(LightMode::On);
        }
        if str_eq(s, LightMode::Off.as_str()) {
            return Ok(LightMode::Off);
        }
        if str_eq(s, LightMode::Flashing.as_str()) {
            return Ok(LightMode::Flashing);
        }
        let prefix: String = "Invalid LightMode: ".to_owned();
        Err(prefix.concat(s))
    }

    /// Every value, in declaration order.
    pub fn all() -> (r: Vec<LightMode>)
        ensures
            r@ == LightMode::all_values(),
    {
        let r = vec![LightMode::On, LightMode::Off, LightMode::Flashing];
        assert(r@ =~= LightMode::all_values());
        r
    }

    /// The written names of the values, as documents write them: each value's name, and
    /// the value that each name is read as.
    pub proof fn lemma_written_names()
        ensures
            LightMode::On.wire_name() == "on"@,
            LightMode::from_wire_name("on"@) == Some(LightMode::On),
            LightMode::Off.wire_name() == "off"@,
            LightMode::from_wire_name("off"@) == Some(LightMode::Off),
            LightMode::Flashing.wire_name() == "flashing"@,
            LightMode::from_wire_name("flashing"@) == Some(LightMode::Flashing),
    {
        reveal_strlit("on");
        assert("on"@ =~= LightMode::On.wire_name());
        LightMode::lemma_wire_name_round_trip(LightMode::On);
        reveal_strlit("off");
        assert("off"@ =~= LightMode::Off.wire_name());
        LightMode::lemma_wire_name_round_trip(LightMode::Off);
        reveal_strlit("flashing");
        assert("flashing"@ =~= LightMode::Flashing.wire_name());
        LightMode::lemma_wire_name_round_trip(LightMode::Flashing);
    }

    /// A text that parses to a value is that value's name.
    pub proof fn lemma_parsed_text_is_wire_name(s: Seq<char>)
        ensures
            LightMode::from_wire_name(s) matches Some(v) ==> v.wire_name() == s,
    {
    }

    /// The name of a value parses back to that value.
    pub proof fn lemma_wire_name_round_trip(v: LightMode)
        ensures
            LightMode::from_wire_name(v.wire_name()) == Some(v),
    {
        match v {
            LightMode::On => {
            },
            LightMode::Off => {
                assert(LightMode::Off.wire_name().len() != LightMode::On.wire_name().len());
            },
            LightMode::Flashing => {
                assert(LightMode::Flashing.wire_name().len() != LightMode::On.wire_name().len());
                assert(LightMode::Flashing.wire_name().len() != LightMode::Off.wire_name().len());
            },
        }
    }

}

impl Duplicate for LightMode {
    open spec fn same(&self, other: &Self) -> bool {
        *self == *other
    }

    fn copied(&self) -> (r: LightMode) {
        *self
    }
}

impl ParamValue for LightMode {
    open spec fn accepts(s: Seq<char>) -> bool {
        LightMode::from_wire_name(s) is Some
    }

    open spec fn denotes(s: Seq<char>, v: LightMode) -> bool {
        LightMode::from_wire_name(s) == Some(v)
    }

    open spec fn type_label() -> Seq<char> {
        "LightMode"@
    }

    fn parse_text(s: &str) -> (r: Option<LightMode>) {
        match LightMode::from_wire(s) {
            Ok(v) => Some(v),
            Err(_) => None,
        }
    }

    fn kind_name() -> (r: String) {
        "LightMode".to_owned()
    }

    proof fn lemma_same_is_equal(a: &Self, b: &Self) {
    }
}

impl std::str::FromStr for LightMode {
    type Err = String;

    fn from_str(s: &str) -> Result<LightMode, String> {
        LightMode::from_wire(s)
    }
}

/// Automatic gear type enumeration
#[derive(Debug, Clone, Copy, PartialEq, Eq, Hash)]
pub enum AutomaticGearType {
    Neutral,
    Park,
    Reverse,
    Drive,
}

impl AutomaticGearType {
    /// The name under which this value is written.
    pub open spec fn wire_name(self) -> Seq<char> {
        match self {
            AutomaticGearType::Neutral => seq!['n'],
            AutomaticGearType::Park => seq!['p'],
            AutomaticGearType::Reverse => seq!['r'],
            AutomaticGearType::Drive => seq!['d'],
        }
    }

    /// The value written under `s`, if any.
    pub open spec fn from_wire_name(s: Seq<char>) -> Option<AutomaticGearType> {
        if s == AutomaticGearType::Neutral.wire_name() {
            Some(AutomaticGearType::Neutral)
        } else if s == AutomaticGearType::Park.wire_name() {
            Some(AutomaticGearType::Park)
        } else if s == AutomaticGearType::Reverse.wire_name() {
            Some(AutomaticGearType::Reverse)
        } else if s == AutomaticGearType::Drive.wire_name() {
            Some(AutomaticGearType::Drive)
        } else {
            None
        }
    }

    /// Every value, in declaration order.
    pub open spec fn all_values() -> Seq<AutomaticGearType> {
        seq![AutomaticGearType::Neutral, AutomaticGearType::Park, AutomaticGearType::Reverse, AutomaticGearType::Drive]
    }

    /// The name under which this value is written.
    pub fn as_str(&self) -> (r: &'static str)
        ensures
            r@ == self.wire_name(),
    {
        match self {
            AutomaticGearType::Neutral => {
                proof {
                    reveal_strlit("n");
                }
                "n"
            },
            AutomaticGearType::Park => {
                proof {
                    reveal_strlit("p");
                }
                "p"
            },
            AutomaticGearType::Reverse => {
                proof {
                    reveal_strlit("r");
                }
                "r"
            },
            AutomaticGearType::Drive => {
                proof {
                    reveal_strlit("d");
                }
                "d"
            },
        }
    }

    /// The name under which this value is written, as an owned string.
    pub fn to_string(&self) -> (r: String)
        ensures
            r@ == self.wire_name(),
    {
        self.as_str().to_owned()
    }

    /// The value written under `s`; an error message naming `s` when no value is.
    pub fn from_wire(s: &str) -> (r: Result<AutomaticGearType, String>)
        ensures
            match r {
                Ok(v) => AutomaticGearType::from_wire_name(s@) == Some(v),
                Err(m) => AutomaticGearType::from_wire_name(s@) is None && m@ == "Invalid AutomaticGearType: "@ + s@,
            },
    {
        if str_eq(s, AutomaticGearType::Neutral.as_str()) {
            return Ok(AutomaticGearType::Neutral);
        }
        if str_eq(s, AutomaticGearType::Park.as_str()) {
            return Ok(AutomaticGearType::Park);
        }
        if str_eq(s, AutomaticGearType::Reverse.as_str()) {
            return Ok(AutomaticGearType::Reverse);
        }
        if str_eq(s, AutomaticGearType::Drive.as_str()) {
            return Ok(AutomaticGearType::Drive);
        }
        let prefix: String = "Invalid AutomaticGearType: ".to_owned();
        Err(prefix.concat(s))
    }

    /// Every value, in declaration order.
    pub fn all() -> (r: Vec<AutomaticGearType>)
        ensures
            r@ == AutomaticGearType::all_values(),
    {
        let r = vec![AutomaticGearType::Neutral, AutomaticGearType::Park, AutomaticGearType::Reverse, AutomaticGearType::Drive];
        assert(r@ =~= AutomaticGearType::all_values());
        r
    }

    /// The written names of the values, as documents write them: each value's name, and
    /// the value that each name is read as.
    pub proof fn lemma_written_names()
        ensures
            AutomaticGearType::Neutral.wire_name() == "n"@,
            AutomaticGearType::from_wire_name("n"@) == Some(AutomaticGearType::Neutral),
            AutomaticGearType::Park.wire_name() == "p"@,
            AutomaticGearType::from_wire_name("p"@) == Some(AutomaticGearType::Park),
            AutomaticGearType::Reverse.wire_name() == "r"@,
            AutomaticGearType::from_wire_name("r"@) == Some(AutomaticGearType::Reverse),
            AutomaticGearType::Drive.wire_name() == "d"@,
            AutomaticGearType::from_wire_name("d"@) == Some(AutomaticGearType::Drive),
    {
        reveal_strlit("n");
        assert("n"@ =~= AutomaticGearType::Neutral.wire_name());
        AutomaticGearType::lemma_wire_name_round_trip(AutomaticGearType::Neutral);
        reveal_strlit("p");
        assert("p"@ =~= AutomaticGearType::Park.wire_name());
        AutomaticGearType::lemma_wire_name_round_trip(AutomaticGearType::Park);
        reveal_strlit("r");
        assert("r"@ =~= AutomaticGearType::Reverse.wire_name());
        AutomaticGearType::lemma_wire_name_round_trip(AutomaticGearType::Reverse);
        reveal_strlit("d");
        assert("d"@ =~= AutomaticGearType::Drive.wire_name());
        AutomaticGearType::lemma_wire_name_round_trip(AutomaticGearType::Drive);
    }

    /// A text that parses to a value is that value's name.
    pub proof fn lemma_parsed_text_is_wire_name(s: Seq<char>)
        ensures
            AutomaticGearType::from_wire_name(s) matches Some(v) ==> v.wire_name() == s,
    {
    }

    /// The name of a value parses back to that value.
    pub proof fn lemma_wire_name_round_trip(v: AutomaticGearType)
        ensures
            AutomaticGearType::from_wire_name(v.wire_name()) == Some(v),
    {
        match v {
            AutomaticGearType::Neutral => {
            },
            AutomaticGearType::Park => {
                assert(AutomaticGearType::Park.wire_name()[0] != AutomaticGearType::Neutral.wire_name()[0]);
            },
            AutomaticGearType::Reverse => {
                assert(AutomaticGearType::Reverse.wire_name()[0] != AutomaticGearType::Neutral.wire_name()[0]);
                assert(AutomaticGearType::Reverse.wire_name()[0] != AutomaticGearType::Park.wire_name()[0]);
            },
            AutomaticGearType::Drive => {
                assert(AutomaticGearType::Drive.wire_name()[0] != AutomaticGearType::Neutral.wire_name()[0]);
                assert(AutomaticGearType::Drive.wire_name()[0] != AutomaticGearType::Park.wire_name()[0]);
                assert(AutomaticGearType::Drive.wire_name()[0] != AutomaticGearType::Reverse.wire_name()[0]);
            },
        }
    }

}

impl Duplicate for AutomaticGearType {
    open spec fn same(&self, other: &Self) -> bool {
        *self == *other
    }

    fn copied(&self) -> (r: AutomaticGearType) {
        *self
    }
}

impl ParamValue for AutomaticGearType {
    open spec fn accepts(s: Seq<char>) -> bool {
        AutomaticGearType::from_wire_name(s) is Some
    }

    open spec fn denotes(s: Seq<char>, v: AutomaticGearType) -> bool {
        AutomaticGearType::from_wire_name(s) == Some(v)
    }

    open spec fn type_label() -> Seq<char> {
        "AutomaticGearType"@
    }

    fn parse_text(s: &str) -> (r: Option<AutomaticGearType>) {
        match AutomaticGearType::from_wire(s) {
            Ok(v) => Some(v),
            Err(_) => None,
        }
    }

    fn kind_name() -> (r: String) {
        "AutomaticGearType".to_owned()
    }

    proof fn lemma_same_is_equal(a: &Self, b: &Self) {
    }
}

impl std::str::FromStr for AutomaticGearType {
    type Err = String;

    fn from_str(s: &str) -> Result<AutomaticGearType, String> {
        AutomaticGearType::from_wire(s)
    }
}

/// Fractional cloud cover enumeration (in oktas)
#[derive(Debug, Clone, Copy, PartialEq, Eq, Hash)]
pub enum FractionalCloudCover {
    ZeroOktas,
    OneOktas,
    TwoOktas,
    ThreeOktas,
    FourOktas,
    FiveOktas,
    SixOktas,
    SevenOktas,
    EightOktas,
    NineOktas,
}

impl FractionalCloudCover {
    /// The name under which this value is written.
    pub open spec fn wire_name(self) -> Seq<char> {
        match self {
            FractionalCloudCover::ZeroOktas => seq!['z', 'e', 'r', 'o', 'O', 'k', 't', 'a', 's'],
            FractionalCloudCover::OneOktas => seq!['o', 'n', 'e', 'O', 'k', 't', 'a', 's'],
            FractionalCloudCover::TwoOktas => seq!['t', 'w', 'o', 'O', 'k', 't', 'a', 's'],
            FractionalCloudCover::ThreeOktas => seq!['t', 'h', 'r', 'e', 'e', 'O', 'k', 't', 'a', 's'],
            FractionalCloudCover::FourOktas => seq!['f', 'o', 'u', 'r', 'O', 'k', 't', 'a', 's'],
            FractionalCloudCover::FiveOktas => seq!['f', 'i', 'v', 'e', 'O', 'k', 't', 'a', 's'],
            FractionalCloudCover::SixOktas => seq!['s', 'i', 'x', 'O', 'k', 't', 'a', 's'],
            FractionalCloudCover::SevenOktas => seq!['s', 'e', 'v', 'e', 'n', 'O', 'k', 't', 'a', 's'],
            FractionalCloudCover::EightOktas => seq!['e', 'i', 'g', 'h', 't', 'O', 'k', 't', 'a', 's'],
            FractionalCloudCover::NineOktas => seq!['n', 'i', 'n', 'e', 'O', 'k', 't', 'a', 's'],
        }
    }

    /// The value written under `s`, if any.
    pub open spec fn from_wire_name(s: Seq<char>) -> Option<FractionalCloudCover> {
        if s == FractionalCloudCover::ZeroOktas.wire_name() {
            Some(FractionalCloudCover::ZeroOktas)
        } else if s == FractionalCloudCover::OneOktas.wire_name() {
            Some(FractionalCloudCover::OneOktas)
        } else if s == FractionalCloudCover::TwoOktas.wire_name() {
            Some(FractionalCloudCover::TwoOktas)
        } else if s == FractionalCloudCover::ThreeOktas.wire_name() {
            Some(FractionalCloudCover::ThreeOktas)
        } else if s == FractionalCloudCover::FourOktas.wire_name() {
            Some(FractionalCloudCover::FourOktas)
        } else if s == FractionalCloudCover::FiveOktas.wire_name() {
            Some(FractionalCloudCover::FiveOktas)
        } else if s == FractionalCloudCover::SixOktas.wire_name() {
            Some(FractionalCloudCover::SixOktas)
        } else if s == FractionalCloudCover::SevenOktas.wire_name() {
            Some(FractionalCloudCover::SevenOktas)
        } else if s == FractionalCloudCover::EightOktas.wire_name() {
            Some(FractionalCloudCover::EightOktas)
        } else if s == FractionalCloudCover::NineOktas.wire_name() {
            Some(FractionalCloudCover::NineOktas)
        } else {
            None
        }
    }

    /// Every value, in declaration order.
    pub open spec fn all_values() -> Seq<FractionalCloudCover> {
        seq![FractionalCloudCover::ZeroOktas, FractionalCloudCover::OneOktas, FractionalCloudCover::TwoOktas, FractionalCloudCover::ThreeOktas, FractionalCloudCover::FourOktas, FractionalCloudCover::FiveOktas, FractionalCloudCover::SixOktas, FractionalCloudCover::SevenOktas, FractionalCloudCover::EightOktas, FractionalCloudCover::NineOktas]
    }

    /// The name under which this value is written.
    pub fn as_str(&self) -> (r: &'static str)
        ensures
            r@ == self.wire_name(),
    {
        match self {
            FractionalCloudCover::ZeroOktas => {
                proof {
                    reveal_strlit("zeroOktas");
                }
                "zeroOktas"
            },
            FractionalCloudCover::OneOktas => {
                proof {
                    reveal_strlit("oneOktas");
                }
                "oneOktas"
            },
            FractionalCloudCover::TwoOktas => {
                proof {
                    reveal_strlit("twoOktas");
                }
                "twoOktas"
            },
            FractionalCloudCover::ThreeOktas => {
                proof {
                    reveal_strlit("threeOktas");
                }
                "threeOktas"
            },
            FractionalCloudCover::FourOktas => {
                proof {
                    reveal_strlit("fourOktas");
                }
                "fourOktas"
            },
            FractionalCloudCover::FiveOktas => {
                proof {
                    reveal_strlit("fiveOktas");
                }
                "fiveOktas"
            },
            FractionalCloudCover::SixOktas => {
                proof {
                    reveal_strlit("sixOktas");
                }
                "sixOktas"
            },
            FractionalCloudCover::SevenOktas => {
                proof {
                    reveal_strlit("sevenOktas");
                }
                "sevenOktas"
            },
            FractionalCloudCover::EightOktas => {
                proof {
                    reveal_strlit("eightOktas");
                }
                "eightOktas"
            },
            FractionalCloudCover::NineOktas => {
                proof {
                    reveal_strlit("nineOktas");
                }
                "nineOktas"
            },
        }
    }

    /// The name under which this value is written, as an owned string.
    pub fn to_string(&self) -> (r: String)
        ensures
            r@ == self.wire_name(),
    {
        self.as_str().to_owned()
    }

    /// The value written under `s`; an error message naming `s` when no value is.
    pub fn from_wire(s: &str) -> (r: Result<FractionalCloudCover, String>)
        ensures
            match r {
                Ok(v) => FractionalCloudCover::from_wire_name(s@) == Some(v),
                Err(m) => FractionalCloudCover::from_wire_name(s@) is None && m@ == "Invalid FractionalCloudCover: "@ + s@,
            },
    {
        if str_eq(s, FractionalCloudCover::ZeroOktas.as_str()) {
            return Ok(FractionalCloudCover::ZeroOktas);
        }
        if str_eq(s, FractionalCloudCover::OneOktas.as_str()) {
            return Ok(FractionalCloudCover::OneOktas);
        }
        if str_eq(s, FractionalCloudCover::TwoOktas.as_str()) {
            return Ok(FractionalCloudCover::TwoOktas);
        }
        if str_eq(s, FractionalCloudCover::ThreeOktas.as_str()) {
            return Ok(FractionalCloudCover::ThreeOktas);
        }
        if str_eq(s, FractionalCloudCover::FourOktas.as_str()) {
            return Ok(FractionalCloudCover::FourOktas);
        }
        if str_eq(s, FractionalCloudCover::FiveOktas.as_str()) {
            return Ok(FractionalCloudCover::FiveOktas);
        }
        if str_eq(s, FractionalCloudCover::SixOktas.as_str()) {
            return Ok(FractionalCloudCover::SixOktas);
        }
        if str_eq(s, FractionalCloudCover::SevenOktas.as_str()) {
            return Ok(FractionalCloudCover::SevenOktas);
        }
        if str_eq(s, FractionalCloudCover::EightOktas.as_str()) {
            return Ok(FractionalCloudCover::EightOktas);
        }
        if str_eq(s, FractionalCloudCover::NineOktas.as_str()) {
            return Ok(FractionalCloudCover::NineOktas);
        }
        let prefix: String = "Invalid FractionalCloudCover: ".to_owned();
        Err(prefix.concat(s))
    }

    /// Every value, in declaration order.
    pub fn all() -> (r: Vec<FractionalCloudCover>)
        ensures
            r@ == FractionalCloudCover::all_values(),
    {
        let r = vec![FractionalCloudCover::ZeroOktas, FractionalCloudCover::OneOktas, FractionalCloudCover::TwoOktas, FractionalCloudCover::ThreeOktas, FractionalCloudCover::FourOktas, FractionalCloudCover::FiveOktas, FractionalCloudCover::SixOktas, FractionalCloudCover::SevenOktas, FractionalCloudCover::EightOktas, FractionalCloudCover::NineOktas];
        assert(r@ =~= FractionalCloudCover::all_values());
        r
    }

    /// The written names of the values, as documents write them: each value's name, and
    /// the value that each name is read as.
    pub proof fn lemma_written_names()
        ensures
            FractionalCloudCover::ZeroOktas.wire_name() == "zeroOktas"@,
            FractionalCloudCover::from_wire_name("zeroOktas"@) == Some(FractionalCloudCover::ZeroOktas),
            FractionalCloudCover::OneOktas.wire_name() == "oneOktas"@,
            FractionalCloudCover::from_wire_name("oneOktas"@) == Some(FractionalCloudCover::OneOktas),
            FractionalCloudCover::TwoOktas.wire_name() == "twoOktas"@,
            FractionalCloudCover::from_wire_name("twoOktas"@) == Some(FractionalCloudCover::TwoOktas),
            FractionalCloudCover::ThreeOktas.wire_name() == "threeOktas"@,
            FractionalCloudCover::from_wire_name("threeOktas"@) == Some(FractionalCloudCover::ThreeOktas),
            FractionalCloudCover::FourOktas.wire_name() == "fourOktas"@,
            FractionalCloudCover::from_wire_name("fourOktas"@) == Some(FractionalCloudCover::FourOktas),
            FractionalCloudCover::FiveOktas.wire_name() == "fiveOktas"@,
            FractionalCloudCover::from_wire_name("fiveOktas"@) == Some(FractionalCloudCover::FiveOktas),
            FractionalCloudCover::SixOktas.wire_name() == "sixOktas"@,
            FractionalCloudCover::from_wire_name("sixOktas"@) == Some(FractionalCloudCover::SixOktas),
            FractionalCloudCover::SevenOktas.wire_name() == "sevenOktas"@,
            FractionalCloudCover::from_wire_name("sevenOktas"@) == Some(FractionalCloudCover::SevenOktas),
            FractionalCloudCover::EightOktas.wire_name() == "eightOktas"@,
            FractionalCloudCover::from_wire_name("eightOktas"@) == Some(FractionalCloudCover::EightOktas),
            FractionalCloudCover::NineOktas.wire_name() == "nineOktas"@,
            FractionalCloudCover::from_wire_name("nineOktas"@) == Some(FractionalCloudCover::NineOktas),
    {
        reveal_strlit("zeroOktas");
        assert("zeroOktas"@ =~= FractionalCloudCover::ZeroOktas.wire_name());
        FractionalCloudCover::lemma_wire_name_round_trip(FractionalCloudCover::ZeroOktas);
        reveal_strlit("oneOktas");
        assert("oneOktas"@ =~= FractionalCloudCover::OneOktas.wire_name());
        FractionalCloudCover::lemma_wire_name_round_trip(FractionalCloudCover::OneOktas);
        reveal_strlit("twoOktas");
        assert("twoOktas"@ =~= FractionalCloudCover::TwoOktas.wire_name());
        FractionalCloudCover::lemma_wire_name_round_trip(FractionalCloudCover::TwoOktas);
        reveal_strlit("threeOktas");
        assert("threeOktas"@ =~= FractionalCloudCover::ThreeOktas.wire_name());
        FractionalCloudCover::lemma_wire_name_round_trip(FractionalCloudCover::ThreeOktas);
        reveal_strlit("fourOktas");
        assert("fourOktas"@ =~= FractionalCloudCover::FourOktas.wire_name());
        FractionalCloudCover::lemma_wire_name_round_trip(FractionalCloudCover::FourOktas);
        reveal_strlit("fiveOktas");
        assert("fiveOktas"@ =~= FractionalCloudCover::FiveOktas.wire_name());
        FractionalCloudCover::lemma_wire_name_round_trip(FractionalCloudCover::FiveOktas);
        reveal_strlit("sixOktas");
        assert("sixOktas"@ =~= FractionalCloudCover::SixOktas.wire_name());
        FractionalCloudCover::lemma_wire_name_round_trip(FractionalCloudCover::SixOktas);
        reveal_strlit("sevenOktas");
        assert("sevenOktas"@ =~= FractionalCloudCover::SevenOktas.wire_name());
        FractionalCloudCover::lemma_wire_name_round_trip(FractionalCloudCover::SevenOktas);
        reveal_strlit("eightOktas");
        assert("eightOktas"@ =~= FractionalCloudCover::EightOktas.wire_name());
        FractionalCloudCover::lemma_wire_name_round_trip(FractionalCloudCover::EightOktas);
        reveal_strlit("nineOktas");
        assert("nineOktas"@ =~= FractionalCloudCover::NineOktas.wire_name());
        FractionalCloudCover::lemma_wire_name_round_trip(FractionalCloudCover::NineOktas);
    }

    /// A text that parses to a value is that value's name.
    pub proof fn lemma_parsed_text_is_wire_name(s: Seq<char>)
        ensures
            FractionalCloudCover::from_wire_name(s) matches Some(v) ==> v.wire_name() == s,
    {
    }

    /// The name of a value parses back to that value.
    pub proof fn lemma_wire_name_round_trip(v: FractionalCloudCover)
        ensures
            FractionalCloudCover::from_wire_name(v.wire_name()) == Some(v),
    {
        match v {
            FractionalCloudCover::ZeroOktas => {
            },
            FractionalCloudCover::OneOktas => {
                assert(FractionalCloudCover::OneOktas.wire_name().len() != FractionalCloudCover::ZeroOktas.wire_name().len());
            },
            FractionalCloudCover::TwoOktas => {
                assert(FractionalCloudCover::TwoOktas.wire_name().len() != FractionalCloudCover::ZeroOktas.wire_name().len());
                assert(FractionalCloudCover::TwoOktas.wire_name()[0] != FractionalCloudCover::OneOktas.wire_name()[0]);
            },
            FractionalCloudCover::ThreeOktas => {
                assert(FractionalCloudCover::ThreeOktas.wire_name().len() != FractionalCloudCover::ZeroOktas.wire_name().len());
                assert(FractionalCloudCover::ThreeOktas.wire_name().len() != FractionalCloudCover::OneOktas.wire_name().len());
                assert(FractionalCloudCover::ThreeOktas.wire_name().len() != FractionalCloudCover::TwoOktas.wire_name().len());
            },
            FractionalCloudCover::FourOktas => {
                assert(FractionalCloudCover::FourOktas.wire_name()[0] != FractionalCloudCover::ZeroOktas.wire_name()[0]);
                assert(FractionalCloudCover::FourOktas.wire_name().len() != FractionalCloudCover::OneOktas.wire_name().len());
                assert(FractionalCloudCover::FourOktas.wire_name().len() != FractionalCloudCover::TwoOktas.wire_name().len());
                assert(FractionalCloudCover::FourOktas.wire_name().len() != FractionalCloudCover::ThreeOktas.wire_name().len());
            },
            FractionalCloudCover::FiveOktas => {
                assert(FractionalCloudCover::FiveOktas.wire_name()[0] != FractionalCloudCover::ZeroOktas.wire_name()[0]);
                assert(FractionalCloudCover::FiveOktas.wire_name().len() != FractionalCloudCover::OneOktas.wire_name().len());
                assert(FractionalCloudCover::FiveOktas.wire_name().len() != FractionalCloudCover::TwoOktas.wire_name().len());
                assert(FractionalCloudCover::FiveOktas.wire_name().len() != FractionalCloudCover::ThreeOktas.wire_name().len());
                assert(FractionalCloudCover::FiveOktas.wire_name()[1] != FractionalCloudCover::FourOktas.wire_name()[1]);
            },
            FractionalCloudCover::SixOktas => {
                assert(FractionalCloudCover::SixOktas.wire_name().len() != FractionalCloudCover::ZeroOktas.wire_name().len());
                assert(FractionalCloudCover::SixOktas.wire_name()[0] != FractionalCloudCover::OneOktas.wire_name()[0]);
                assert(FractionalCloudCover::SixOktas.wire_name()[0] != FractionalCloudCover::TwoOktas.wire_name()[0]);
                assert(FractionalCloudCover::SixOktas.wire_name().len() != FractionalCloudCover::ThreeOktas.wire_name().len());
                assert(FractionalCloudCover::SixOktas.wire_name().len() != FractionalCloudCover::FourOktas.wire_name().len());
                assert(FractionalCloudCover::SixOktas.wire_name().len() != FractionalCloudCover::FiveOktas.wire_name().len());
            },
            FractionalCloudCover::SevenOktas => {
                assert(FractionalCloudCover::SevenOktas.wire_name().len() != FractionalCloudCover::ZeroOktas.wire_name().len());
                assert(FractionalCloudCover::SevenOktas.wire_name().len() != FractionalCloudCover::OneOktas.wire_name().len());
                assert(FractionalCloudCover::SevenOktas.wire_name().len() != FractionalCloudCover::TwoOktas.wire_name().len());
                assert(FractionalCloudCover::SevenOktas.wire_name()[0] != FractionalCloudCover::ThreeOktas.wire_name()[0]);
                assert(FractionalCloudCover::SevenOktas.wire_name().len() != FractionalCloudCover::FourOktas.wire_name().len());
                assert(FractionalCloudCover::SevenOktas.wire_name().len() != FractionalCloudCover::FiveOktas.wire_name().len());
                assert(FractionalCloudCover::SevenOktas.wire_name().len() != FractionalCloudCover::SixOktas.wire_name().len());
            },
            FractionalCloudCover::EightOktas => {
                assert(FractionalCloudCover::EightOktas.wire_name().len() != FractionalCloudCover::ZeroOktas.wire_name().len());
                assert(FractionalCloudCover::EightOktas.wire_name().len() != FractionalCloudCover::OneOktas.wire_name().len());
                assert(FractionalCloudCover::EightOktas.wire_name().len() != FractionalCloudCover::TwoOktas.wire_name().len());
                assert(FractionalCloudCover::EightOktas.wire_name()[0] != FractionalCloudCover::ThreeOktas.wire_name()[0]);
                assert(FractionalCloudCover::EightOktas.wire_name().len() != FractionalCloudCover::FourOktas.wire_name().len());
                assert(FractionalCloudCover::EightOktas.wire_name().len() != FractionalCloudCover::FiveOktas.wire_name().len());
                assert(FractionalCloudCover::EightOktas.wire_name().len() != FractionalCloudCover::SixOktas.wire_name().len());
                assert(FractionalCloudCover::EightOktas.wire_name()[0] != FractionalCloudCover::SevenOktas.wire_name()[0]);
            },
            FractionalCloudCover::NineOktas => {
                assert(FractionalCloudCover::NineOktas.wire_name()[0] != FractionalCloudCover::ZeroOktas.wire_name()[0]);
                assert(FractionalCloudCover::NineOktas.wire_name().len() != FractionalCloudCover::OneOktas.wire_name().len());
                assert(FractionalCloudCover::NineOktas.wire_name().len() != FractionalCloudCover::TwoOktas.wire_name().len());
                assert(FractionalCloudCover::NineOktas.wire_name().len() != FractionalCloudCover::ThreeOktas.wire_name().len());
                assert(FractionalCloudCover::NineOktas.wire_name()[0] != FractionalCloudCover::FourOktas.wire_name()[0]);
                assert(FractionalCloudCover::NineOktas.wire_name()[0] != FractionalCloudCover::FiveOktas.wire_name()[0]);
                assert(FractionalCloudCover::NineOktas.wire_name().len() != FractionalCloudCover::SixOktas.wire_name().len());
                assert(FractionalCloudCover::NineOktas.wire_name().len() != FractionalCloudCover::SevenOktas.wire_name().len());
                assert(FractionalCloudCover::NineOktas.wire_name().len() != FractionalCloudCover::EightOktas.wire_name().len());
            },
        }
    }

}

impl Duplicate for FractionalCloudCover {
    open spec fn same(&self, other: &Self) -> bool {
        *self == *other
    }

    fn copied(&self) -> (r: FractionalCloudCover) {
        *self
    }
}

impl ParamValue for FractionalCloudCover {
    open spec fn accepts(s: Seq<char>) -> bool {
        FractionalCloudCover::from_wire_name(s) is Some
    }

    open spec fn denotes(s: Seq<char>, v: FractionalCloudCover) -> bool {
        FractionalCloudCover::from_wire_name(s) == Some(v)
    }

    open spec fn type_label() -> Seq<char> {
        "FractionalCloudCover"@
    }

    fn parse_text(s: &str) -> (r: Option<FractionalCloudCover>) {
        match FractionalCloudCover::from_wire(s) {
            Ok(v) => Some(v),
            Err(_) => None,
        }
    }

    fn kind_name() -> (r: String) {
        "FractionalCloudCover".to_owned()
    }

    proof fn lemma_same_is_equal(a: &Self, b: &Self) {
    }
}

impl std::str::FromStr for FractionalCloudCover {
    type Err = String;

    fn from_str(s: &str) -> Result<FractionalCloudCover, String> {
        FractionalCloudCover::from_wire(s)
    }
}

/// Pedestrian motion type enumeration
#[derive(Debug, Clone, Copy, PartialEq, Eq, Hash)]
pub enum PedestrianMotionType {
    Standing,
    Sitting,
    Lying,
    Squatting,
    Walking,
    Running,
    Reeling,
    Crawling,
    Cycling,
    Jumping,
    Ducking,
    BendingDown,
}

impl PedestrianMotionType {
    /// The name under which this value is written.
    pub open spec fn wire_name(self) -> Seq<char> {
        match self {
            PedestrianMotionType::Standing => seq!['s', 't', 'a', 'n', 'd', 'i', 'n', 'g'],
            PedestrianMotionType::Sitting => seq!['s', 'i', 't', 't', 'i', 'n', 'g'],
            PedestrianMotionType::Lying => seq!['l', 'y', 'i', 'n', 'g'],
            PedestrianMotionType::Squatting => seq!['s', 'q', 'u', 'a', 't', 't', 'i', 'n', 'g'],
            PedestrianMotionType::Walking => seq!['w', 'a', 'l', 'k', 'i', 'n', 'g'],
            PedestrianMotionType::Running => seq!['r', 'u', 'n', 'n', 'i', 'n', 'g'],
            PedestrianMotionType::Reeling => seq!['r', 'e', 'e', 'l', 'i', 'n', 'g'],
            PedestrianMotionType::Crawling => seq!['c', 'r', 'a', 'w', 'l', 'i', 'n', 'g'],
            PedestrianMotionType::Cycling => seq!['c', 'y', 'c', 'l', 'i', 'n', 'g'],
            PedestrianMotionType::Jumping => seq!['j', 'u', 'm', 'p', 'i', 'n', 'g'],
            PedestrianMotionType::Ducking => seq!['d', 'u', 'c', 'k', 'i', 'n', 'g'],
            PedestrianMotionType::BendingDown => seq!['b', 'e', 'n', 'd', 'i', 'n', 'g', 'D', 'o', 'w', 'n'],
        }
    }

    /// The value written under `s`, if any.
    pub open spec fn from_wire_name(s: Seq<char>) -> Option<PedestrianMotionType> {
        if s == PedestrianMotionType::Standing.wire_name() {
            Some(PedestrianMotionType::Standing)
        } else if s == PedestrianMotionType::Sitting.wire_name() {
            Some(PedestrianMotionType::Sitting)
        } else if s == PedestrianMotionType::Lying.wire_name() {
            Some(PedestrianMotionType::Lying)
        } else if s == PedestrianMotionType::Squatting.wire_name() {
            Some(PedestrianMotionType::Squatting)
        } else if s == PedestrianMotionType::Walking.wire_name() {
            Some(PedestrianMotionType::Walking)
        } else if s == PedestrianMotionType::Running.wire_name() {
            Some(PedestrianMotionType::Running)
        } else if s == PedestrianMotionType::Reeling.wire_name() {
            Some(PedestrianMotionType::Reeling)
        } else if s == PedestrianMotionType::Crawling.wire_name() {
            Some(PedestrianMotionType::Crawling)
        } else if s == PedestrianMotionType::Cycling.wire_name() {
            Some(PedestrianMotionType::Cycling)
        } else if s == PedestrianMotionType::Jumping.wire_name() {
            Some(PedestrianMotionType::Jumping)
        } else if s == PedestrianMotionType::Ducking.wire_name() {
            Some(PedestrianMotionType::Ducking)
        } else if s == PedestrianMotionType::BendingDown.wire_name() {
            Some(PedestrianMotionType::BendingDown)
        } else {
            None
        }
    }

    /// Every value, in declaration order.
    pub open spec fn all_values() -> Seq<PedestrianMotionType> {
        seq![PedestrianMotionType::Standing, PedestrianMotionType::Sitting, PedestrianMotionType::Lying, PedestrianMotionType::Squatting, PedestrianMotionType::Walking, PedestrianMotionType::Running, PedestrianMotionType::Reeling, PedestrianMotionType::Crawling, PedestrianMotionType::Cycling, PedestrianMotionType::Jumping, PedestrianMotionType::Ducking, PedestrianMotionType::BendingDown]
    }

    /// The name under which this value is written.
    pub fn as_str(&self) -> (r: &'static str)
        ensures
            r@ == self.wire_name(),
    {
        match self {
            PedestrianMotionType::Standing => {
                proof {
                    reveal_strlit("standing");
                }
                "standing"
            },
            PedestrianMotionType::Sitting => {
                proof {
                    reveal_strlit("sitting");
                }
                "sitting"
            },
            PedestrianMotionType::Lying => {
                proof {
                    reveal_strlit("lying");
                }
                "lying"
            },
            PedestrianMotionType::Squatting => {
                proof {
                    reveal_strlit("squatting");
                }
                "squatting"
            },
            PedestrianMotionType::Walking => {
                proof {
                    reveal_strlit("walking");
                }
                "walking"
            },
            PedestrianMotionType::Running => {
                proof {
                    reveal_strlit("running");
                }
                "running"
            },
            PedestrianMotionType::Reeling => {
                proof {
                    reveal_strlit("reeling");
                }
                "reeling"
            },
            PedestrianMotionType::Crawling => {
                proof {
                    reveal_strlit("crawling");
                }
                "crawling"
            },
            PedestrianMotionType::Cycling => {
                proof {
                    reveal_strlit("cycling");
                }
                "cycling"
            },
            PedestrianMotionType::Jumping => {
                proof {
                    reveal_strlit("jumping");
                }
                "jumping"
            },
            PedestrianMotionType::Ducking => {
                proof {
                    reveal_strlit("ducking");
                }
                "ducking"
            },
            PedestrianMotionType::BendingDown => {
                proof {
                    reveal_strlit("bendingDown");
                }
                "bendingDown"
            },
        }
    }

    /// The name under which this value is written, as an owned string.
    pub fn to_string(&self) -> (r: String)
        ensures
            r@ == self.wire_name(),
    {
        self.as_str().to_owned()
    }

    /// The value written under `s`; an error message naming `s` when no value is.
    pub fn from_wire(s: &str) -> (r: Result<PedestrianMotionType, String>)
        ensures
            match r {
                Ok(v) => PedestrianMotionType::from_wire_name(s@) == Some(v),
                Err(m) => PedestrianMotionType::from_wire_name(s@) is None && m@ == "Invalid PedestrianMotionType: "@ + s@,
            },
    {
        if str_eq(s, PedestrianMotionType::Standing.as_str()) {
            return Ok(PedestrianMotionType::Standing);
        }
        if str_eq(s, PedestrianMotionType::Sitting.as_str()) {
            return Ok(PedestrianMotionType::Sitting);
        }
        if str_eq(s, PedestrianMotionType::Lying.as_str()) {
            return Ok(PedestrianMotionType::Lying);
        }
        if str_eq(s, PedestrianMotionType::Squatting.as_str()) {
            return Ok(PedestrianMotionType::Squatting);
        }
        if str_eq(s, PedestrianMotionType::Walking.as_str()) {
            return Ok(PedestrianMotionType::Walking);
        }
        if str_eq(s, PedestrianMotionType::Running.as_str()) {
            return Ok(PedestrianMotionType::Running);
        }
        if str_eq(s, PedestrianMotionType::Reeling.as_str()) {
            return Ok(PedestrianMotionType::Reeling);
        }
        if str_eq(s, PedestrianMotionType::Crawling.as_str()) {
            return Ok(PedestrianMotionType::Crawling);
        }
        if str_eq(s, PedestrianMotionType::Cycling.as_str()) {
            return Ok(PedestrianMotionType::Cycling);
        }
        if str_eq(s, PedestrianMotionType::Jumping.as_str()) {
            return Ok(PedestrianMotionType::Jumping);
        }
        if str_eq(s, PedestrianMotionType::Ducking.as_str()) {
            return Ok(PedestrianMotionType::Ducking);
        }
        if str_eq(s, PedestrianMotionType::BendingDown.as_str()) {
            return Ok(PedestrianMotionType::BendingDown);
        }
        let prefix: String = "Invalid PedestrianMotionType: ".to_owned();
        Err(prefix.concat(s))
    }

    /// Every value, in declaration order.
    pub fn all() -> (r: Vec<PedestrianMotionType>)
        ensures
            r@ == PedestrianMotionType::all_values(),
    {
        let r = vec![PedestrianMotionType::Standing, PedestrianMotionType::Sitting, PedestrianMotionType::Lying, PedestrianMotionType::Squatting, PedestrianMotionType::Walking, PedestrianMotionType::Running, PedestrianMotionType::Reeling, PedestrianMotionType::Crawling, PedestrianMotionType::Cycling, PedestrianMotionType::Jumping, PedestrianMotionType::Ducking, PedestrianMotionType::BendingDown];
        assert(r@ =~= PedestrianMotionType::all_values());
        r
    }

    /// The written names of the values, as documents write them: each value's name, and
    /// the value that each name is read as.
    pub proof fn lemma_written_names()
        ensures
            PedestrianMotionType::Standing.wire_name() == "standing"@,
            PedestrianMotionType::from_wire_name("standing"@) == Some(PedestrianMotionType::Standing),
            PedestrianMotionType::Sitting.wire_name() == "sitting"@,
            PedestrianMotionType::from_wire_name("sitting"@) == Some(PedestrianMotionType::Sitting),
            PedestrianMotionType::Lying.wire_name() == "lying"@,
            PedestrianMotionType::from_wire_name("lying"@) == Some(PedestrianMotionType::Lying),
            PedestrianMotionType::Squatting.wire_name() == "squatting"@,
            PedestrianMotionType::from_wire_name("squatting"@) == Some(PedestrianMotionType::Squatting),
            PedestrianMotionType::Walking.wire_name() == "walking"@,
            PedestrianMotionType::from_wire_name("walking"@) == Some(PedestrianMotionType::Walking),
            PedestrianMotionType::Running.wire_name() == "running"@,
            PedestrianMotionType::from_wire_name("running"@) == Some(PedestrianMotionType::Running),
            PedestrianMotionType::Reeling.wire_name() == "reeling"@,
            PedestrianMotionType::from_wire_name("reeling"@) == Some(PedestrianMotionType::Reeling),
            PedestrianMotionType::Crawling.wire_name() == "crawling"@,
            PedestrianMotionType::from_wire_name("crawling"@) == Some(PedestrianMotionType::Crawling),
            PedestrianMotionType::Cycling.wire_name() == "cycling"@,
            PedestrianMotionType::from_wire_name("cycling"@) == Some(PedestrianMotionType::Cycling),
            PedestrianMotionType::Jumping.wire_name() == "jumping"@,
            PedestrianMotionType::from_wire_name("jumping"@) == Some(PedestrianMotionType::Jumping),
            PedestrianMotionType::Ducking.wire_name() == "ducking"@,
            PedestrianMotionType::from_wire_name("ducking"@) == Some(PedestrianMotionType::Ducking),
            PedestrianMotionType::BendingDown.wire_name() == "bendingDown"@,
            PedestrianMotionType::from_wire_name("bendingDown"@) == Some(PedestrianMotionType::BendingDown),
    {
        reveal_strlit("standing");
        assert("standing"@ =~= PedestrianMotionType::Standing.wire_name());
        PedestrianMotionType::lemma_wire_name_round_trip(PedestrianMotionType::Standing);
        reveal_strlit("sitting");
        assert("sitting"@ =~= PedestrianMotionType::Sitting.wire_name());
        PedestrianMotionType::lemma_wire_name_round_trip(PedestrianMotionType::Sitting);
        reveal_strlit("lying");
        assert("lying"@ =~= PedestrianMotionType::Lying.wire_name());
        PedestrianMotionType::lemma_wire_name_round_trip(PedestrianMotionType::Lying);
        reveal_strlit("squatting");
        assert("squatting"@ =~= PedestrianMotionType::Squatting.wire_name());
        PedestrianMotionType::lemma_wire_name_round_trip(PedestrianMotionType::Squatting);
        reveal_strlit("walking");
        assert("walking"@ =~= PedestrianMotionType::Walking.wire_name());
        PedestrianMotionType::lemma_wire_name_round_trip(PedestrianMotionType::Walking);
        reveal_strlit("running");
        assert("running"@ =~= PedestrianMotionType::Running.wire_name());
        PedestrianMotionType::lemma_wire_name_round_trip(PedestrianMotionType::Running);
        reveal_strlit("reeling");
        assert("reeling"@ =~= PedestrianMotionType::Reeling.wire_name());
        PedestrianMotionType::lemma_wire_name_round_trip(PedestrianMotionType::Reeling);
        reveal_strlit("crawling");
        assert("crawling"@ =~= PedestrianMotionType::Crawling.wire_name());
        PedestrianMotionType::lemma_wire_name_round_trip(PedestrianMotionType::Crawling);
        reveal_strlit("cycling");
        assert("cycling"@ =~= PedestrianMotionType::Cycling.wire_name());
        PedestrianMotionType::lemma_wire_name_round_trip(PedestrianMotionType::Cycling);
        reveal_strlit("jumping");
        assert("jumping"@ =~= PedestrianMotionType::Jumping.wire_name());
        PedestrianMotionType::lemma_wire_name_round_trip(PedestrianMotionType::Jumping);
        reveal_strlit("ducking");
        assert("ducking"@ =~= PedestrianMotionType::Ducking.wire_name());
        PedestrianMotionType::lemma_wire_name_round_trip(PedestrianMotionType::Ducking);
        reveal_strlit("bendingDown");
        assert("bendingDown"@ =~= PedestrianMotionType::BendingDown.wire_name());
        PedestrianMotionType::lemma_wire_name_round_trip(PedestrianMotionType::BendingDown);
    }

    /// A text that parses to a value is that value's name.
    pub proof fn lemma_parsed_text_is_wire_name(s: Seq<char>)
        ensures
            PedestrianMotionType::from_wire_name(s) matches Some(v) ==> v.wire_name() == s,
    {
    }

    /// The name of a value parses back to that value.
    pub proof fn lemma_wire_name_round_trip(v: PedestrianMotionType)
        ensures
            PedestrianMotionType::from_wire_name(v.wire_name()) == Some(v),
    {
        match v {
            PedestrianMotionType::Standing => {
            },
            PedestrianMotionType::Sitting => {
                assert(PedestrianMotionType::Sitting.wire_name().len() != PedestrianMotionType::Standing.wire_name().len());
            },
            PedestrianMotionType::Lying => {
                assert(PedestrianMotionType::Lying.wire_name().len() != PedestrianMotionType::Standing.wire_name().len());
                assert(PedestrianMotionType::Lying.wire_name().len() != PedestrianMotionType::Sitting.wire_name().len());
            },
            PedestrianMotionType::Squatting => {
                assert(PedestrianMotionType::Squatting.wire_name().len() != PedestrianMotionType::Standing.wire_name().len());
                assert(PedestrianMotionType::Squatting.wire_name().len() != PedestrianMotionType::Sitting.wire_name().len());
                assert(PedestrianMotionType::Squatting.wire_name().len() != PedestrianMotionType::Lying.wire_name().len());
            },
            PedestrianMotionType::Walking => {
                assert(PedestrianMotionType::Walking.wire_name().len() != PedestrianMotionType::Standing.wire_name().len());
                assert(PedestrianMotionType::Walking.wire_name()[0] != PedestrianMotionType::Sitting.wire_name()[0]);
                assert(PedestrianMotionType::Walking.wire_name().len() != PedestrianMotionType::Lying.wire_name().len());
                assert(PedestrianMotionType::Walking.wire_name().len() != PedestrianMotionType::Squatting.wire_name().len());
            },
            PedestrianMotionType::Running => {
                assert(PedestrianMotionType::Running.wire_name().len() != PedestrianMotionType::Standing.wire_name().len());
                assert(PedestrianMotionType::Running.wire_name()[0] != PedestrianMotionType::Sitting.wire_name()[0]);
                assert(PedestrianMotionType::Running.wire_name().len() != PedestrianMotionType::Lying.wire_name().len());
                assert(PedestrianMotionType::Running.wire_name().len() != PedestrianMotionType::Squatting.wire_name().len());
                assert(PedestrianMotionType::Running.wire_name()[0] != PedestrianMotionType::Walking.wire_name()[0]);
            },
            PedestrianMotionType::Reeling => {
                assert(PedestrianMotionType::Reeling.wire_name().len() != PedestrianMotionType::Standing.wire_name().len());
                assert(PedestrianMotionType::Reeling.wire_name()[0] != PedestrianMotionType::Sitting.wire_name()[0]);
                assert(PedestrianMotionType::Reeling.wire_name().len() != PedestrianMotionType::Lying.wire_name().len());
                assert(PedestrianMotionType::Reeling.wire_name().len() != PedestrianMotionType::Squatting.wire_name().len());
                assert(PedestrianMotionType::Reeling.wire_name()[0] != PedestrianMotionType::Walking.wire_name()[0]);
                assert(PedestrianMotionType::Reeling.wire_name()[1] != PedestrianMotionType::Running.wire_name()[1]);
            },
            PedestrianMotionType::Crawling => {
                assert(PedestrianMotionType::Crawling.wire_name()[0] != PedestrianMotionType::Standing.wire_name()[0]);
                assert(PedestrianMotionType::Crawling.wire_name().len() != PedestrianMotionType::Sitting.wire_name().len());
                assert(PedestrianMotionType::Crawling.wire_name().len() != PedestrianMotionType::Lying.wire_name().len());
                assert(PedestrianMotionType::Crawling.wire_name().len() != PedestrianMotionType::Squatting.wire_name().len());
                assert(PedestrianMotionType::Crawling.wire_name().len() != PedestrianMotionType::Walking.wire_name().len());
                assert(PedestrianMotionType::Crawling.wire_name().len() != PedestrianMotionType::Running.wire_name().len());
                assert(PedestrianMotionType::Crawling.wire_name().len() != PedestrianMotionType::Reeling.wire_name().len());
            },
            PedestrianMotionType::Cycling => {
                assert(PedestrianMotionType::Cycling.wire_name().len() != PedestrianMotionType::Standing.wire_name().len());
                assert(PedestrianMotionType::Cycling.wire_name()[0] != PedestrianMotionType::Sitting.wire_name()[0]);
                assert(PedestrianMotionType::Cycling.wire_name().len() != PedestrianMotionType::Lying.wire_name().len());
                assert(PedestrianMotionType::Cycling.wire_name().len() != PedestrianMotionType::Squatting.wire_name().len());
                assert(PedestrianMotionType::Cycling.wire_name()[0] != PedestrianMotionType::Walking.wire_name()[0]);
                assert(PedestrianMotionType::Cycling.wire_name()[0] != PedestrianMotionType::Running.wire_name()[0]);
                assert(PedestrianMotionType::Cycling.wire_name()[0] != PedestrianMotionType::Reeling.wire_name()[0]);
                assert(PedestrianMotionType::Cycling.wire_name().len() != PedestrianMotionType::Crawling.wire_name().len());
            },
            PedestrianMotionType::Jumping => {
                assert(PedestrianMotionType::Jumping.wire_name().len() != PedestrianMotionType::Standing.wire_name().len());
                assert(PedestrianMotionType::Jumping.wire_name()[0] != PedestrianMotionType::Sitting.wire_name()[0]);
                assert(PedestrianMotionType::Jumping.wire_name().len() != PedestrianMotionType::Lying.wire_name().len());
                assert(PedestrianMotionType::Jumping.wire_name().len() != PedestrianMotionType::Squatting.wire_name().len());
                assert(PedestrianMotionType::Jumping.wire_name()[0] != PedestrianMotionType::Walking.wire_name()[0]);
                assert(PedestrianMotionType::Jumping.wire_name()[0] != PedestrianMotionType::Running.wire_name()[0]);
                assert(PedestrianMotionType::Jumping.wire_name()[0] != PedestrianMotionType::Reeling.wire_name()[0]);
                assert(PedestrianMotionType::Jumping.wire_name().len() != PedestrianMotionType::Crawling.wire_name().len());
                assert(PedestrianMotionType::Jumping.wire_name()[0] != PedestrianMotionType::Cycling.wire_name()[0]);
            },
            PedestrianMotionType::Ducking => {
                assert(PedestrianMotionType::Ducking.wire_name().len() != PedestrianMotionType::Standing.wire_name().len());
                assert(PedestrianMotionType::Ducking.wire_name()[0] != PedestrianMotionType::Sitting.wire_name()[0]);
                assert(PedestrianMotionType::Ducking.wire_name().len() != PedestrianMotionType::Lying.wire_name().len());
                assert(PedestrianMotionType::Ducking.wire_name().len() != PedestrianMotionType::Squatting.wire_name().len());
                assert(PedestrianMotionType::Ducking.wire_name()[0] != PedestrianMotionType::Walking.wire_name()[0]);
                assert(PedestrianMotionType::Ducking.wire_name()[0] != PedestrianMotionType::Running.wire_name()[0]);
                assert(PedestrianMotionType::Ducking.wire_name()[0] != PedestrianMotionType::Reeling.wire_name()[0]);
                assert(PedestrianMotionType::Ducking.wire_name().len() != PedestrianMotionType::Crawling.wire_name().len());
                assert(PedestrianMotionType::Ducking.wire_name()[0] != PedestrianMotionType::Cycling.wire_name()[0]);
                assert(PedestrianMotionType::Ducking.wire_name()[0] != PedestrianMotionType::Jumping.wire_name()[0]);
            },
            PedestrianMotionType::BendingDown => {
                assert(PedestrianMotionType::BendingDown.wire_name().len() != PedestrianMotionType::Standing.wire_name().len());
                assert(PedestrianMotionType::BendingDown.wire_name().len() != PedestrianMotionType::Sitting.wire_name().len());
                assert(PedestrianMotionType::BendingDown.wire_name().len() != PedestrianMotionType::Lying.wire_name().len());
                assert(PedestrianMotionType::BendingDown.wire_name().len() != PedestrianMotionType::Squatting.wire_name().len());
                assert(PedestrianMotionType::BendingDown.wire_name().len() != PedestrianMotionType::Walking.wire_name().len());
                assert(PedestrianMotionType::BendingDown.wire_name().len() != PedestrianMotionType::Running.wire_name().len());
                assert(PedestrianMotionType::BendingDown.wire_name().len() != PedestrianMotionType::Reeling.wire_name().len());
                assert(PedestrianMotionType::BendingDown.wire_name().len() != PedestrianMotionType::Crawling.wire_name().len());
                assert(PedestrianMotionType::BendingDown.wire_name().len() != PedestrianMotionType::Cycling.wire_name().len());
                assert(PedestrianMotionType::BendingDown.wire_name().len() != PedestrianMotionType::Jumping.wire_name().len());
                assert(PedestrianMotionType::BendingDown.wire_name().len() != PedestrianMotionType::Ducking.wire_name().len());
            },
        }
    }

}

impl Duplicate for PedestrianMotionType {
    open spec fn same(&self, other: &Self) -> bool {
        *self == *other
    }

    fn copied(&self) -> (r: PedestrianMotionType) {
        *self
    }
}

impl ParamValue for PedestrianMotionType {
    open spec fn accepts(s: Seq<char>) -> bool {
        PedestrianMotionType::from_wire_name(s) is Some
    }

    open spec fn denotes(s: Seq<char>, v: PedestrianMotionType) -> bool {
        PedestrianMotionType::from_wire_name(s) == Some(v)
    }

    open spec fn type_label() -> Seq<char> {
        "PedestrianMotionType"@
    }

    fn parse_text(s: &str) -> (r: Option<PedestrianMotionType>) {
        match PedestrianMotionType::from_wire(s) {
            Ok(v) => Some(v),
            Err(_) => None,
        }
    }

    fn kind_name() -> (r: String) {
        "PedestrianMotionType".to_owned()
    }

    proof fn lemma_same_is_equal(a: &Self, b: &Self) {
    }
}

impl std::str::FromStr for PedestrianMotionType {
    type Err = String;

    fn from_str(s: &str) -> Result<PedestrianMotionType, String> {
        PedestrianMotionType::from_wire(s)
    }
}

/// Pedestrian gesture type enumeration
#[derive(Debug, Clone, Copy, PartialEq, Eq, Hash)]
pub enum PedestrianGestureType {
    PhoneCallRightHand,
    PhoneCallLeftHand,
    PhoneTextRightHand,
    PhoneTextLeftHand,
    WavingRightArm,
    WavingLeftArm,
    UmbrellaRightHand,
    UmbrellaLeftHand,
    CrossArms,
    CoffeeRightHand,
    CoffeeLeftHand,
    SandwichRightHand,
    SandwichLeftHand,
}

impl PedestrianGestureType {
    /// The name under which this value is written.
    pub open spec fn wire_name(self) -> Seq<char> {
        match self {
            PedestrianGestureType::PhoneCallRightHand => seq!['p', 'h', 'o', 'n', 'e', 'C', 'a', 'l', 'l', 'R', 'i', 'g', 'h', 't', 'H', 'a', 'n', 'd'],
            PedestrianGestureType::PhoneCallLeftHand => seq!['p', 'h', 'o', 'n', 'e', 'C', 'a', 'l', 'l', 'L', 'e', 'f', 't', 'H', 'a', 'n', 'd'],
            PedestrianGestureType::PhoneTextRightHand => seq!['p', 'h', 'o', 'n', 'e', 'T', 'e', 'x', 't', 'R', 'i', 'g', 'h', 't', 'H', 'a', 'n', 'd'],
            PedestrianGestureType::PhoneTextLeftHand => seq!['p', 'h', 'o', 'n', 'e', 'T', 'e', 'x', 't', 'L', 'e', 'f', 't', 'H', 'a', 'n', 'd'],
            PedestrianGestureType::WavingRightArm => seq!['w', 'a', 'v', 'i', 'n', 'g', 'R', 'i', 'g', 'h', 't', 'A', 'r', 'm'],
            PedestrianGestureType::WavingLeftArm => seq!['w', 'a', 'v', 'i', 'n', 'g', 'L', 'e', 'f', 't', 'A', 'r', 'm'],
            PedestrianGestureType::UmbrellaRightHand => seq!['u', 'm', 'b', 'r', 'e', 'l', 'l', 'a', 'R', 'i', 'g', 'h', 't', 'H', 'a', 'n', 'd'],
            PedestrianGestureType::UmbrellaLeftHand => seq!['u', 'm', 'b', 'r', 'e', 'l', 'l', 'a', 'L', 'e', 'f', 't', 'H', 'a', 'n', 'd'],
            PedestrianGestureType::CrossArms => seq!['c', 'r', 'o', 's', 's', 'A', 'r', 'm', 's'],
            PedestrianGestureType::CoffeeRightHand => seq!['c', 'o', 'f', 'f', 'e', 'e', 'R', 'i', 'g', 'h', 't', 'H', 'a', 'n', 'd'],
            PedestrianGestureType::CoffeeLeftHand => seq!['c', 'o', 'f', 'f', 'e', 'e', 'L', 'e', 'f', 't', 'H', 'a', 'n', 'd'],
            PedestrianGestureType::SandwichRightHand => seq!['s', 'a', 'n', 'd', 'w', 'i', 'c', 'h', 'R', 'i', 'g', 'h', 't', 'H', 'a', 'n', 'd'],
            PedestrianGestureType::SandwichLeftHand => seq!['s', 'a', 'n', 'd', 'w', 'i', 'c', 'h', 'L', 'e', 'f', 't', 'H', 'a', 'n', 'd'],
        }
    }

    /// The value written under `s`, if any.
    pub open spec fn from_wire_name(s: Seq<char>) -> Option<PedestrianGestureType> {
        if s == PedestrianGestureType::PhoneCallRightHand.wire_name() {
            Some(PedestrianGestureType::PhoneCallRightHand)
        } else if s == PedestrianGestureType::PhoneCallLeftHand.wire_name() {
            Some(PedestrianGestureType::PhoneCallLeftHand)
        } else if s == PedestrianGestureType::PhoneTextRightHand.wire_name() {
            Some(PedestrianGestureType::PhoneTextRightHand)
        } else if s == PedestrianGestureType::PhoneTextLeftHand.wire_name() {
            Some(PedestrianGestureType::PhoneTextLeftHand)
        } else if s == PedestrianGestureType::WavingRightArm.wire_name() {
            Some(PedestrianGestureType::WavingRightArm)
        } else if s == PedestrianGestureType::WavingLeftArm.wire_name() {
            Some(PedestrianGestureType::WavingLeftArm)
        } else if s == PedestrianGestureType::UmbrellaRightHand.wire_name() {
            Some(PedestrianGestureType::UmbrellaRightHand)
        } else if s == PedestrianGestureType::UmbrellaLeftHand.wire_name() {
            Some(PedestrianGestureType::UmbrellaLeftHand)
        } else if s == PedestrianGestureType::CrossArms.wire_name() {
            Some(PedestrianGestureType::CrossArms)
        } else if s == PedestrianGestureType::CoffeeRightHand.wire_name() {
            Some(PedestrianGestureType::CoffeeRightHand)
        } else if s == PedestrianGestureType::CoffeeLeftHand.wire_name() {
            Some(PedestrianGestureType::CoffeeLeftHand)
        } else if s == PedestrianGestureType::SandwichRightHand.wire_name() {
            Some(PedestrianGestureType::SandwichRightHand)
        } else if s == PedestrianGestureType::SandwichLeftHand.wire_name() {
            Some(PedestrianGestureType::SandwichLeftHand)
        } else {
            None
        }
    }

    /// Every value, in declaration order.
    pub open spec fn all_values() -> Seq<PedestrianGestureType> {
        seq![PedestrianGestureType::PhoneCallRightHand, PedestrianGestureType::PhoneCallLeftHand, PedestrianGestureType::PhoneTextRightHand, PedestrianGestureType::PhoneTextLeftHand, PedestrianGestureType::WavingRightArm, PedestrianGestureType::WavingLeftArm, PedestrianGestureType::UmbrellaRightHand, PedestrianGestureType::UmbrellaLeftHand, PedestrianGestureType::CrossArms, PedestrianGestureType::CoffeeRightHand, PedestrianGestureType::CoffeeLeftHand, PedestrianGestureType::SandwichRightHand, PedestrianGestureType::SandwichLeftHand]
    }

    /// The name under which this value is written.
    pub fn as_str(&self) -> (r: &'static str)
        ensures
            r@ == self.wire_name(),
    {
        match self {
            PedestrianGestureType::PhoneCallRightHand => {
                proof {
                    reveal_strlit("phoneCallRightHand");
                }
                "phoneCallRightHand"
            },
            PedestrianGestureType::PhoneCallLeftHand => {
                proof {
                    reveal_strlit("phoneCallLeftHand");
                }
                "phoneCallLeftHand"
            },
            PedestrianGestureType::PhoneTextRightHand => {
                proof {
                    reveal_strlit("phoneTextRightHand");
                }
                "phoneTextRightHand"
            },
            PedestrianGestureType::PhoneTextLeftHand => {
                proof {
                    reveal_strlit("phoneTextLeftHand");
                }
                "phoneTextLeftHand"
            },
            PedestrianGestureType::WavingRightArm => {
                proof {
                    reveal_strlit("wavingRightArm");
                }
                "wavingRightArm"
            },
            PedestrianGestureType::WavingLeftArm => {
                proof {
                    reveal_strlit("wavingLeftArm");
                }
                "wavingLeftArm"
            },
            PedestrianGestureType::UmbrellaRightHand => {
                proof {
                    reveal_strlit("umbrellaRightHand");
                }
                "umbrellaRightHand"
            },
            PedestrianGestureType::UmbrellaLeftHand => {
                proof {
                    reveal_strlit("umbrellaLeftHand");
                }
                "umbrellaLeftHand"
            },
            PedestrianGestureType::CrossArms => {
                proof {
                    reveal_strlit("crossArms");
                }
                "crossArms"
            },
            PedestrianGestureType::CoffeeRightHand => {
                proof {
                    reveal_strlit("coffeeRightHand");
                }
                "coffeeRightHand"
            },
            PedestrianGestureType::CoffeeLeftHand => {
                proof {
                    reveal_strlit("coffeeLeftHand");
                }
                "coffeeLeftHand"
            },
            PedestrianGestureType::SandwichRightHand => {
                proof {
                    reveal_strlit("sandwichRightHand");
                }
                "sandwichRightHand"
            },
            PedestrianGestureType::SandwichLeftHand => {
                proof {
                    reveal_strlit("sandwichLeftHand");
                }
                "sandwichLeftHand"
            },
        }
    }

    /// The name under which this value is written, as an owned string.
    pub fn to_string(&self) -> (r: String)
        ensures
            r@ == self.wire_name(),
    {
        self.as_str().to_owned()
    }

    /// The value written under `s`; an error message naming `s` when no value is.
    pub fn from_wire(s: &str) -> (r: Result<PedestrianGestureType, String>)
        ensures
            match r {
                Ok(v) => PedestrianGestureType::from_wire_name(s@) == Some(v),
                Err(m) => PedestrianGestureType::from_wire_name(s@) is None && m@ == "Invalid PedestrianGestureType: "@ + s@,
            },
    {
        if str_eq(s, PedestrianGestureType::PhoneCallRightHand.as_str()) {
            return Ok(PedestrianGestureType::PhoneCallRightHand);
        }
        if str_eq(s, PedestrianGestureType::PhoneCallLeftHand.as_str()) {
            return Ok(PedestrianGestureType::PhoneCallLeftHand);
        }
        if str_eq(s, PedestrianGestureType::PhoneTextRightHand.as_str()) {
            return Ok(PedestrianGestureType::PhoneTextRightHand);
        }
        if str_eq(s, PedestrianGestureType::PhoneTextLeftHand.as_str()) {
            return Ok(PedestrianGestureType::PhoneTextLeftHand);
        }
        if str_eq(s, PedestrianGestureType::WavingRightArm.as_str()) {
            return Ok(PedestrianGestureType::WavingRightArm);
        }
        if str_eq(s, PedestrianGestureType::WavingLeftArm.as_str()) {
            return Ok(PedestrianGestureType::WavingLeftArm);
        }
        if str_eq(s, PedestrianGestureType::UmbrellaRightHand.as_str()) {
            return Ok(PedestrianGestureType::UmbrellaRightHand);
        }
        if str_eq(s, PedestrianGestureType::UmbrellaLeftHand.as_str()) {
            return Ok(PedestrianGestureType::UmbrellaLeftHand);
        }
        if str_eq(s, PedestrianGestureType::CrossArms.as_str()) {
            return Ok(PedestrianGestureType::CrossArms);
        }
        if str_eq(s, PedestrianGestureType::CoffeeRightHand.as_str()) {
            return Ok(PedestrianGestureType::CoffeeRightHand);
        }
        if str_eq(s, PedestrianGestureType::CoffeeLeftHand.as_str()) {
            return Ok(PedestrianGestureType::CoffeeLeftHand);
        }
        if str_eq(s, PedestrianGestureType::SandwichRightHand.as_str()) {
            return Ok(PedestrianGestureType::SandwichRightHand);
        }
        if str_eq(s, PedestrianGestureType::SandwichLeftHand.as_str()) {
            return Ok(PedestrianGestureType::SandwichLeftHand);
        }
        let prefix: String = "Invalid PedestrianGestureType: ".to_owned();
        Err(prefix.concat(s))
    }

    /// Every value, in declaration order.
    pub fn all() -> (r: Vec<PedestrianGestureType>)
        ensures
            r@ == PedestrianGestureType::all_values(),
    {
        let r = vec![PedestrianGestureType::PhoneCallRightHand, PedestrianGestureType::PhoneCallLeftHand, PedestrianGestureType::PhoneTextRightHand, PedestrianGestureType::PhoneTextLeftHand, PedestrianGestureType::WavingRightArm, PedestrianGestureType::WavingLeftArm, PedestrianGestureType::UmbrellaRightHand, PedestrianGestureType::UmbrellaLeftHand, PedestrianGestureType::CrossArms, PedestrianGestureType::CoffeeRightHand, PedestrianGestureType::CoffeeLeftHand, PedestrianGestureType::SandwichRightHand, PedestrianGestureType::SandwichLeftHand];
        assert(r@ =~= PedestrianGestureType::all_values());
        r
    }

    /// The written names of the values, as documents write them: each value's name, and
    /// the value that each name is read as.
    pub proof fn lemma_written_names()
        ensures
            PedestrianGestureType::PhoneCallRightHand.wire_name() == "phoneCallRightHand"@,
            PedestrianGestureType::from_wire_name("phoneCallRightHand"@) == Some(PedestrianGestureType::PhoneCallRightHand),
            PedestrianGestureType::PhoneCallLeftHand.wire_name() == "phoneCallLeftHand"@,
            PedestrianGestureType::from_wire_name("phoneCallLeftHand"@) == Some(PedestrianGestureType::PhoneCallLeftHand),
            PedestrianGestureType::PhoneTextRightHand.wire_name() == "phoneTextRightHand"@,
            PedestrianGestureType::from_wire_name("phoneTextRightHand"@) == Some(PedestrianGestureType::PhoneTextRightHand),
            PedestrianGestureType::PhoneTextLeftHand.wire_name() == "phoneTextLeftHand"@,
            PedestrianGestureType::from_wire_name("phoneTextLeftHand"@) == Some(PedestrianGestureType::PhoneTextLeftHand),
            PedestrianGestureType::WavingRightArm.wire_name() == "wavingRightArm"@,
            PedestrianGestureType::from_wire_name("wavingRightArm"@) == Some(PedestrianGestureType::WavingRightArm),
            PedestrianGestureType::WavingLeftArm.wire_name() == "wavingLeftArm"@,
            PedestrianGestureType::from_wire_name("wavingLeftArm"@) == Some(PedestrianGestureType::WavingLeftArm),
            PedestrianGestureType::UmbrellaRightHand.wire_name() == "umbrellaRightHand"@,
            PedestrianGestureType::from_wire_name("umbrellaRightHand"@) == Some(PedestrianGestureType::UmbrellaRightHand),
            PedestrianGestureType::UmbrellaLeftHand.wire_name() == "umbrellaLeftHand"@,
            PedestrianGestureType::from_wire_name("umbrellaLeftHand"@) == Some(PedestrianGestureType::UmbrellaLeftHand),
            PedestrianGestureType::CrossArms.wire_name() == "crossArms"@,
            PedestrianGestureType::from_wire_name("crossArms"@) == Some(PedestrianGestureType::CrossArms),
            PedestrianGestureType::CoffeeRightHand.wire_name() == "coffeeRightHand"@,
            PedestrianGestureType::from_wire_name("coffeeRightHand"@) == Some(PedestrianGestureType::CoffeeRightHand),
            PedestrianGestureType::CoffeeLeftHand.wire_name() == "coffeeLeftHand"@,
            PedestrianGestureType::from_wire_name("coffeeLeftHand"@) == Some(PedestrianGestureType::CoffeeLeftHand),
            PedestrianGestureType::SandwichRightHand.wire_name() == "sandwichRightHand"@,
            PedestrianGestureType::from_wire_name("sandwichRightHand"@) == Some(PedestrianGestureType::SandwichRightHand),
            PedestrianGestureType::SandwichLeftHand.wire_name() == "sandwichLeftHand"@,
            PedestrianGestureType::from_wire_name("sandwichLeftHand"@) == Some(PedestrianGestureType::SandwichLeftHand),
    {
        reveal_strlit("phoneCallRightHand");
        assert("phoneCallRightHand"@ =~= PedestrianGestureType::PhoneCallRightHand.wire_name());
        PedestrianGestureType::lemma_wire_name_round_trip(PedestrianGestureType::PhoneCallRightHand);
        reveal_strlit("phoneCallLeftHand");
        assert("phoneCallLeftHand"@ =~= PedestrianGestureType::PhoneCallLeftHand.wire_name());
        PedestrianGestureType::lemma_wire_name_round_trip(PedestrianGestureType::PhoneCallLeftHand);
        reveal_strlit("phoneTextRightHand");
        assert("phoneTextRightHand"@ =~= PedestrianGestureType::PhoneTextRightHand.wire_name());
        PedestrianGestureType::lemma_wire_name_round_trip(PedestrianGestureType::PhoneTextRightHand);
        reveal_strlit("phoneTextLeftHand");
        assert("phoneTextLeftHand"@ =~= PedestrianGestureType::PhoneTextLeftHand.wire_name());
        PedestrianGestureType::lemma_wire_name_round_trip(PedestrianGestureType::PhoneTextLeftHand);
        reveal_strlit("wavingRightArm");
        assert("wavingRightArm"@ =~= PedestrianGestureType::WavingRightArm.wire_name());
        PedestrianGestureType::lemma_wire_name_round_trip(PedestrianGestureType::WavingRightArm);
        reveal_strlit("wavingLeftArm");
        assert("wavingLeftArm"@ =~= PedestrianGestureType::WavingLeftArm.wire_name());
        PedestrianGestureType::lemma_wire_name_round_trip(PedestrianGestureType::WavingLeftArm);
        reveal_strlit("umbrellaRightHand");
        assert("umbrellaRightHand"@ =~= PedestrianGestureType::UmbrellaRightHand.wire_name());
        PedestrianGestureType::lemma_wire_name_round_trip(PedestrianGestureType::UmbrellaRightHand);
        reveal_strlit("umbrellaLeftHand");
        assert("umbrellaLeftHand"@ =~= PedestrianGestureType::UmbrellaLeftHand.wire_name());
        PedestrianGestureType::lemma_wire_name_round_trip(PedestrianGestureType::UmbrellaLeftHand);
        reveal_strlit("crossArms");
        assert("crossArms"@ =~= PedestrianGestureType::CrossArms.wire_name());
        PedestrianGestureType::lemma_wire_name_round_trip(PedestrianGestureType::CrossArms);
        reveal_strlit("coffeeRightHand");
        assert("coffeeRightHand"@ =~= PedestrianGestureType::CoffeeRightHand.wire_name());
        PedestrianGestureType::lemma_wire_name_round_trip(PedestrianGestureType::CoffeeRightHand);
        reveal_strlit("coffeeLeftHand");
        assert("coffeeLeftHand"@ =~= PedestrianGestureType::CoffeeLeftHand.wire_name());
        PedestrianGestureType::lemma_wire_name_round_trip(PedestrianGestureType::CoffeeLeftHand);
        reveal_strlit("sandwichRightHand");
        assert("sandwichRightHand"@ =~= PedestrianGestureType::SandwichRightHand.wire_name());
        PedestrianGestureType::lemma_wire_name_round_trip(PedestrianGestureType::SandwichRightHand);
        reveal_strlit("sandwichLeftHand");
        assert("sandwichLeftHand"@ =~= PedestrianGestureType::SandwichLeftHand.wire_name());
        PedestrianGestureType::lemma_wire_name_round_trip(PedestrianGestureType::SandwichLeftHand);
    }

    /// A text that parses to a value is that value's name.
    pub proof fn lemma_parsed_text_is_wire_name(s: Seq<char>)
        ensures
            PedestrianGestureType::from_wire_name(s) matches Some(v) ==> v.wire_name() == s,
    {
    }

    /// The name of a value parses back to that value.
    pub proof fn lemma_wire_name_round_trip(v: PedestrianGestureType)
        ensures
            PedestrianGestureType::from_wire_name(v.wire_name()) == Some(v),
    {
        match v {
            PedestrianGestureType::PhoneCallRightHand => {
            },
            PedestrianGestureType::PhoneCallLeftHand => {
                assert(PedestrianGestureType::PhoneCallLeftHand.wire_name().len() != PedestrianGestureType::PhoneCallRightHand.wire_name().len());
            },
            PedestrianGestureType::PhoneTextRightHand => {
                assert(PedestrianGestureType::PhoneTextRightHand.wire_name()[5] != PedestrianGestureType::PhoneCallRightHand.wire_name()[5]);
                assert(PedestrianGestureType::PhoneTextRightHand.wire_name().len() != PedestrianGestureType::PhoneCallLeftHand.wire_name().len());
            },
            PedestrianGestureType::PhoneTextLeftHand => {
                assert(PedestrianGestureType::PhoneTextLeftHand.wire_name().len() != PedestrianGestureType::PhoneCallRightHand.wire_name().len());
                assert(PedestrianGestureType::PhoneTextLeftHand.wire_name()[5] != PedestrianGestureType::PhoneCallLeftHand.wire_name()[5]);
                assert(PedestrianGestureType::PhoneTextLeftHand.wire_name().len() != PedestrianGestureType::PhoneTextRightHand.wire_name().len());
            },
            PedestrianGestureType::WavingRightArm => {
                assert(PedestrianGestureType::WavingRightArm.wire_name().len() != PedestrianGestureType::PhoneCallRightHand.wire_name().len());
                assert(PedestrianGestureType::WavingRightArm.wire_name().len() != PedestrianGestureType::PhoneCallLeftHand.wire_name().len());
                assert(PedestrianGestureType::WavingRightArm.wire_name().len() != PedestrianGestureType::PhoneTextRightHand.wire_name().len());
                assert(PedestrianGestureType::WavingRightArm.wire_name().len() != PedestrianGestureType::PhoneTextLeftHand.wire_name().len());
            },
            PedestrianGestureType::WavingLeftArm => {
                assert(PedestrianGestureType::WavingLeftArm.wire_name().len() != PedestrianGestureType::PhoneCallRightHand.wire_name().len());
                assert(PedestrianGestureType::WavingLeftArm.wire_name().len() != PedestrianGestureType::PhoneCallLeftHand.wire_name().len());
                assert(PedestrianGestureType::WavingLeftArm.wire_name().len() != PedestrianGestureType::PhoneTextRightHand.wire_name().len());
                assert(PedestrianGestureType::WavingLeftArm.wire_name().len() != PedestrianGestureType::PhoneTextLeftHand.wire_name().len());
                assert(PedestrianGestureType::WavingLeftArm.wire_name().len() != PedestrianGestureType::WavingRightArm.wire_name().len());
            },
            PedestrianGestureType::UmbrellaRightHand => {
                assert(PedestrianGestureType::UmbrellaRightHand.wire_name().len() != PedestrianGestureType::PhoneCallRightHand.wire_name().len());
                assert(PedestrianGestureType::UmbrellaRightHand.wire_name()[0] != PedestrianGestureType::PhoneCallLeftHand.wire_name()[0]);
                assert(PedestrianGestureType::UmbrellaRightHand.wire_name().len() != PedestrianGestureType::PhoneTextRightHand.wire_name().len());
                assert(PedestrianGestureType::UmbrellaRightHand.wire_name()[0] != PedestrianGestureType::PhoneTextLeftHand.wire_name()[0]);
                assert(PedestrianGestureType::UmbrellaRightHand.wire_name().len() != PedestrianGestureType::WavingRightArm.wire_name().len());
                assert(PedestrianGestureType::UmbrellaRightHand.wire_name().len() != PedestrianGestureType::WavingLeftArm.wire_name().len());
            },
            PedestrianGestureType::UmbrellaLeftHand => {
                assert(PedestrianGestureType::UmbrellaLeftHand.wire_name().len() != PedestrianGestureType::PhoneCallRightHand.wire_name().len());
                assert(PedestrianGestureType::UmbrellaLeftHand.wire_name().len() != PedestrianGestureType::PhoneCallLeftHand.wire_name().len());
                assert(PedestrianGestureType::UmbrellaLeftHand.wire_name().len() != PedestrianGestureType::PhoneTextRightHand.wire_name().len());
                assert(PedestrianGestureType::UmbrellaLeftHand.wire_name().len() != PedestrianGestureType::PhoneTextLeftHand.wire_name().len());
                assert(PedestrianGestureType::UmbrellaLeftHand.wire_name().len() != PedestrianGestureType::WavingRightArm.wire_name().len());
                assert(PedestrianGestureType::UmbrellaLeftHand.wire_name().len() != PedestrianGestureType::WavingLeftArm.wire_name().len());
                assert(PedestrianGestureType::UmbrellaLeftHand.wire_name().len() != PedestrianGestureType::UmbrellaRightHand.wire_name().len());
            },
            PedestrianGestureType::CrossArms => {
                assert(PedestrianGestureType::CrossArms.wire_name().len() != PedestrianGestureType::PhoneCallRightHand.wire_name().len());
                assert(PedestrianGestureType::CrossArms.wire_name().len() != PedestrianGestureType::PhoneCallLeftHand.wire_name().len());
                assert(PedestrianGestureType::CrossArms.wire_name().len() != PedestrianGestureType::PhoneTextRightHand.wire_name().len());
                assert(PedestrianGestureType::CrossArms.wire_name().len() != PedestrianGestureType::PhoneTextLeftHand.wire_name().len());
                assert(PedestrianGestureType::CrossArms.wire_name().len() != PedestrianGestureType::WavingRightArm.wire_name().len());
                assert(PedestrianGestureType::CrossArms.wire_name().len() != PedestrianGestureType::WavingLeftArm.wire_name().len());
                assert(PedestrianGestureType::CrossArms.wire_name().len() != PedestrianGestureType::UmbrellaRightHand.wire_name().len());
                assert(PedestrianGestureType::CrossArms.wire_name().len() != PedestrianGestureType::UmbrellaLeftHand.wire_name().len());
            },
            PedestrianGestureType::CoffeeRightHand => {
                assert(PedestrianGestureType::CoffeeRightHand.wire_name().len() != PedestrianGestureType::PhoneCallRightHand.wire_name().len());
                assert(PedestrianGestureType::CoffeeRightHand.wire_name().len() != PedestrianGestureType::PhoneCallLeftHand.wire_name().len());
                assert(PedestrianGestureType::CoffeeRightHand.wire_name().len() != PedestrianGestureType::PhoneTextRightHand.wire_name().len());
                assert(PedestrianGestureType::CoffeeRightHand.wire_name().len() != PedestrianGestureType::PhoneTextLeftHand.wire_name().len());
                assert(PedestrianGestureType::CoffeeRightHand.wire_name().len() != PedestrianGestureType::WavingRightArm.wire_name().len());
                assert(PedestrianGestureType::CoffeeRightHand.wire_name().len() != PedestrianGestureType::WavingLeftArm.wire_name().len());
                assert(PedestrianGestureType::CoffeeRightHand.wire_name().len() != PedestrianGestureType::UmbrellaRightHand.wire_name().len());
                assert(PedestrianGestureType::CoffeeRightHand.wire_name().len() != PedestrianGestureType::UmbrellaLeftHand.wire_name().len());
                assert(PedestrianGestureType::CoffeeRightHand.wire_name().len() != PedestrianGestureType::CrossArms.wire_name().len());
            },
            PedestrianGestureType::CoffeeLeftHand => {
                assert(PedestrianGestureType::CoffeeLeftHand.wire_name().len() != PedestrianGestureType::PhoneCallRightHand.wire_name().len());
                assert(PedestrianGestureType::CoffeeLeftHand.wire_name().len() != PedestrianGestureType::PhoneCallLeftHand.wire_name().len());
                assert(PedestrianGestureType::CoffeeLeftHand.wire_name().len() != PedestrianGestureType::PhoneTextRightHand.wire_name().len());
                assert(PedestrianGestureType::CoffeeLeftHand.wire_name().len() != PedestrianGestureType::PhoneTextLeftHand.wire_name().len());
                assert(PedestrianGestureType::CoffeeLeftHand.wire_name()[0] != PedestrianGestureType::WavingRightArm.wire_name()[0]);
                assert(PedestrianGestureType::CoffeeLeftHand.wire_name().len() != PedestrianGestureType::WavingLeftArm.wire_name().len());
                assert(PedestrianGestureType::CoffeeLeftHand.wire_name().len() != PedestrianGestureType::UmbrellaRightHand.wire_name().len());
                assert(PedestrianGestureType::CoffeeLeftHand.wire_name().len() != PedestrianGestureType::UmbrellaLeftHand.wire_name().len());
                assert(PedestrianGestureType::CoffeeLeftHand.wire_name().len() != PedestrianGestureType::CrossArms.wire_name().len());
                assert(PedestrianGestureType::CoffeeLeftHand.wire_name().len() != PedestrianGestureType::CoffeeRightHand.wire_name().len());
            },
            PedestrianGestureType::SandwichRightHand => {
                assert(PedestrianGestureType::SandwichRightHand.wire_name().len() != PedestrianGestureType::PhoneCallRightHand.wire_name().len());
                assert(PedestrianGestureType::SandwichRightHand.wire_name()[0] != PedestrianGestureType::PhoneCallLeftHand.wire_name()[0]);
                assert(PedestrianGestureType::SandwichRightHand.wire_name().len() != PedestrianGestureType::PhoneTextRightHand.wire_name().len());
                assert(PedestrianGestureType::SandwichRightHand.wire_name()[0] != PedestrianGestureType::PhoneTextLeftHand.wire_name()[0]);
                assert(PedestrianGestureType::SandwichRightHand.wire_name().len() != PedestrianGestureType::WavingRightArm.wire_name().len());
                assert(PedestrianGestureType::SandwichRightHand.wire_name().len() != PedestrianGestureType::WavingLeftArm.wire_name().len());
                assert(PedestrianGestureType::SandwichRightHand.wire_name()[0] != PedestrianGestureType::UmbrellaRightHand.wire_name()[0]);
                assert(PedestrianGestureType::SandwichRightHand.wire_name().len() != PedestrianGestureType::UmbrellaLeftHand.wire_name().len());
                assert(PedestrianGestureType::SandwichRightHand.wire_name().len() != PedestrianGestureType::CrossArms.wire_name().len());
                assert(PedestrianGestureType::SandwichRightHand.wire_name().len() != PedestrianGestureType::CoffeeRightHand.wire_name().len());
                assert(PedestrianGestureType::SandwichRightHand.wire_name().len() != PedestrianGestureType::CoffeeLeftHand.wire_name().len());
            },
            PedestrianGestureType::SandwichLeftHand => {
                assert(PedestrianGestureType::SandwichLeftHand.wire_name().len() != PedestrianGestureType::PhoneCallRightHand.wire_name().len());
                assert(PedestrianGestureType::SandwichLeftHand.wire_name().len() != PedestrianGestureType::PhoneCallLeftHand.wire_name().len());
                assert(PedestrianGestureType::SandwichLeftHand.wire_name().len() != PedestrianGestureType::PhoneTextRightHand.wire_name().len());
                assert(PedestrianGestureType::SandwichLeftHand.wire_name().len() != PedestrianGestureType::PhoneTextLeftHand.wire_name().len());
                assert(PedestrianGestureType::SandwichLeftHand.wire_name().len() != PedestrianGestureType::WavingRightArm.wire_name().len());
                assert(PedestrianGestureType::SandwichLeftHand.wire_name().len() != PedestrianGestureType::WavingLeftArm.wire_name().len());
                assert(PedestrianGestureType::SandwichLeftHand.wire_name().len() != PedestrianGestureType::UmbrellaRightHand.wire_name().len());
                assert(PedestrianGestureType::SandwichLeftHand.wire_name()[0] != PedestrianGestureType::UmbrellaLeftHand.wire_name()[0]);
                assert(PedestrianGestureType::SandwichLeftHand.wire_name().len() != PedestrianGestureType::CrossArms.wire_name().len());
                assert(PedestrianGestureType::SandwichLeftHand.wire_name().len() != PedestrianGestureType::CoffeeRightHand.wire_name().len());
                assert(PedestrianGestureType::SandwichLeftHand.wire_name().len() != PedestrianGestureType::CoffeeLeftHand.wire_name().len());
                assert(PedestrianGestureType::SandwichLeftHand.wire_name().len() != PedestrianGestureType::SandwichRightHand.wire_name().len());
            },
        }
    }

}

impl Duplicate for PedestrianGestureType {
    open spec fn same(&self, other: &Self) -> bool {
        *self == *other
    }

    fn copied(&self) -> (r: PedestrianGestureType) {
        *self
    }
}

impl ParamValue for PedestrianGestureType {
    open spec fn accepts(s: Seq<char>) -> bool {
        PedestrianGestureType::from_wire_name(s) is Some
    }

    open spec fn denotes(s: Seq<char>, v: PedestrianGestureType) -> bool {
        PedestrianGestureType::from_wire_name(s) == Some(v)
    }

    open spec fn type_label() -> Seq<char> {
        "PedestrianGestureType"@
    }

    fn parse_text(s: &str) -> (r: Option<PedestrianGestureType>) {
        match PedestrianGestureType::from_wire(s) {
            Ok(v) => Some(v),
            Err(_) => None,
        }
    }

    fn kind_name() -> (r: String) {
        "PedestrianGestureType".to_owned()
    }

    proof fn lemma_same_is_equal(a: &Self, b: &Self) {
    }
}

impl std::str::FromStr for PedestrianGestureType {
    type Err = String;

    fn from_str(s: &str) -> Result<PedestrianGestureType, String> {
        PedestrianGestureType::from_wire(s)
    }
}

/// Route strategy enumeration
#[derive(Debug, Clone, Copy, PartialEq, Eq, Hash)]
pub enum RouteStrategy {
    Fastest,
    LeastIntersections,
    Random,
    Shortest,
}

impl RouteStrategy {
    /// The name under which this value is written.
    pub open spec fn wire_name(self) -> Seq<char> {
        match self {
            RouteStrategy::Fastest => seq!['f', 'a', 's', 't', 'e', 's', 't'],
            RouteStrategy::LeastIntersections => seq!['l', 'e', 'a', 's', 't', 'I', 'n', 't', 'e', 'r', 's', 'e', 'c', 't', 'i', 'o', 'n', 's'],
            RouteStrategy::Random => seq!['r', 'a', 'n', 'd', 'o', 'm'],
            RouteStrategy::Shortest => seq!['s', 'h', 'o', 'r', 't', 'e', 's', 't'],
        }
    }

    /// The value written under `s`, if any.
    pub open spec fn from_wire_name(s: Seq<char>) -> Option<RouteStrategy> {
        if s == RouteStrategy::Fastest.wire_name() {
            Some(RouteStrategy::Fastest)
        } else if s == RouteStrategy::LeastIntersections.wire_name() {
            Some(RouteStrategy::LeastIntersections)
        } else if s == RouteStrategy::Random.wire_name() {
            Some(RouteStrategy::Random)
        } else if s == RouteStrategy::Shortest.wire_name() {
            Some(RouteStrategy::Shortest)
        } else {
            None
        }
    }

    /// Every value, in declaration order.
    pub open spec fn all_values() -> Seq<RouteStrategy> {
        seq![RouteStrategy::Fastest, RouteStrategy::LeastIntersections, RouteStrategy::Random, RouteStrategy::Shortest]
    }

    /// The name under which this value is written.
    pub fn as_str(&self) -> (r: &'static str)
        ensures
            r@ == self.wire_name(),
    {
        match self {
            RouteStrategy::Fastest => {
                proof {
                    reveal_strlit("fastest");
                }
                "fastest"
            },
            RouteStrategy::LeastIntersections => {
                proof {
                    reveal_strlit("leastIntersections");
                }
                "leastIntersections"
            },
            RouteStrategy::Random => {
                proof {
                    reveal_strlit("random");
                }
                "random"
            },
            RouteStrategy::Shortest => {
                proof {
                    reveal_strlit("shortest");
                }
                "shortest"
            },
        }
    }

    /// The name under which this value is written, as an owned string.
    pub fn to_string(&self) -> (r: String)
        ensures
            r@ == self.wire_name(),
    {
        self.as_str().to_owned()
    }

    /// The value written under `s`; an error message naming `s` when no value is.
    pub fn from_wire(s: &str) -> (r: Result<RouteStrategy, String>)
        ensures
            match r {
                Ok(v) => RouteStrategy::from_wire_name(s@) == Some(v),
                Err(m) => RouteStrategy::from_wire_name(s@) is None && m@ == "Invalid RouteStrategy: "@ + s@,
            },
    {
        if str_eq(s, RouteStrategy::Fastest.as_str()) {
            return Ok(RouteStrategy::Fastest);
        }
        if str_eq(s, RouteStrategy::LeastIntersections.as_str()) {
            return Ok(RouteStrategy::LeastIntersections);
        }
        if str_eq(s, RouteStrategy::Random.as_str()) {
            return Ok(RouteStrategy::Random);
        }
        if str_eq(s, RouteStrategy::Shortest.as_str()) {
            return Ok(RouteStrategy::Shortest);
        }
        let prefix: String = "Invalid RouteStrategy: ".to_owned();
        Err(prefix.concat(s))
    }

    /// Every value, in declaration order.
    pub fn all() -> (r: Vec<RouteStrategy>)
        ensures
            r@ == RouteStrategy::all_values(),
    {
        let r = vec![RouteStrategy::Fastest, RouteStrategy::LeastIntersections, RouteStrategy::Random, RouteStrategy::Shortest];
        assert(r@ =~= RouteStrategy::all_values());
        r
    }

    /// The written names of the values, as documents write them: each value's name, and
    /// the value that each name is read as.
    pub proof fn lemma_written_names()
        ensures
            RouteStrategy::Fastest.wire_name() == "fastest"@,
            RouteStrategy::from_wire_name("fastest"@) == Some(RouteStrategy::Fastest),
            RouteStrategy::LeastIntersections.wire_name() == "leastIntersections"@,
            RouteStrategy::from_wire_name("leastIntersections"@) == Some(RouteStrategy::LeastIntersections),
            RouteStrategy::Random.wire_name() == "random"@,
            RouteStrategy::from_wire_name("random"@) == Some(RouteStrategy::Random),
            RouteStrategy::Shortest.wire_name() == "shortest"@,
            RouteStrategy::from_wire_name("shortest"@) == Some(RouteStrategy::Shortest),
    {
        reveal_strlit("fastest");
        assert("fastest"@ =~= RouteStrategy::Fastest.wire_name());
        RouteStrategy::lemma_wire_name_round_trip(RouteStrategy::Fastest);
        reveal_strlit("leastIntersections");
        assert("leastIntersections"@ =~= RouteStrategy::LeastIntersections.wire_name());
        RouteStrategy::lemma_wire_name_round_trip(RouteStrategy::LeastIntersections);
        reveal_strlit("random");
        assert("random"@ =~= RouteStrategy::Random.wire_name());
        RouteStrategy::lemma_wire_name_round_trip(RouteStrategy::Random);
        reveal_strlit("shortest");
        assert("shortest"@ =~= RouteStrategy::Shortest.wire_name());
        RouteStrategy::lemma_wire_name_round_trip(RouteStrategy::Shortest);
    }

    /// A text that parses to a value is that value's name.
    pub proof fn lemma_parsed_text_is_wire_name(s: Seq<char>)
        ensures
            RouteStrategy::from_wire_name(s) matches Some(v) ==> v.wire_name() == s,
    {
    }

    /// The name of a value parses back to that value.
    pub proof fn lemma_wire_name_round_trip(v: RouteStrategy)
        ensures
            RouteStrategy::from_wire_name(v.wire_name()) == Some(v),
    {
        match v {
            RouteStrategy::Fastest => {
            },
            RouteStrategy::LeastIntersections => {
                assert(RouteStrategy::LeastIntersections.wire_name().len() != RouteStrategy::Fastest.wire_name().len());
            },
            RouteStrategy::Random => {
                assert(RouteStrategy::Random.wire_name().len() != RouteStrategy::Fastest.wire_name().len());
                assert(RouteStrategy::Random.wire_name().len() != RouteStrategy::LeastIntersections.wire_name().len());
            },
            RouteStrategy::Shortest => {
                assert(RouteStrategy::Shortest.wire_name().len() != RouteStrategy::Fastest.wire_name().len());
                assert(RouteStrategy::Shortest.wire_name().len() != RouteStrategy::LeastIntersections.wire_name().len());
                assert(RouteStrategy::Shortest.wire_name().len() != RouteStrategy::Random.wire_name().len());
            },
        }
    }

}

impl Duplicate for RouteStrategy {
    open spec fn same(&self, other: &Self) -> bool {
        *self == *other
    }

    fn copied(&self) -> (r: RouteStrategy) {
        *self
    }
}

impl ParamValue for RouteStrategy {
    open spec fn accepts(s: Seq<char>) -> bool {
        RouteStrategy::from_wire_name(s) is Some
    }

    open spec fn denotes(s: Seq<char>, v: RouteStrategy) -> bool {
        RouteStrategy::from_wire_name(s) == Some(v)
    }

    open spec fn type_label() -> Seq<char> {
        "RouteStrategy"@
    }

    fn parse_text(s: &str) -> (r: Option<RouteStrategy>) {
        match RouteStrategy::from_wire(s) {
            Ok(v) => Some(v),
            Err(_) => None,
        }
    }

    fn kind_name() -> (r: String) {
        "RouteStrategy".to_owned()
    }

    proof fn lemma_same_is_equal(a: &Self, b: &Self) {
    }
}

impl std::str::FromStr for RouteStrategy {
    type Err = String;

    fn from_str(s: &str) -> Result<RouteStrategy, String> {
        RouteStrategy::from_wire(s)
    }
}

/// Routing algorithm enumeration
#[derive(Debug, Clone, Copy, PartialEq, Eq, Hash)]
pub enum RoutingAlgorithm {
    AssignedRoute,
    Fastest,
    LeastIntersections,
    Shortest,
    Undefined,
}

impl RoutingAlgorithm {
    /// The name under which this value is written.
    pub open spec fn wire_name(self) -> Seq<char> {
        match self {
            RoutingAlgorithm::AssignedRoute => seq!['a', 's', 's', 'i', 'g', 'n', 'e', 'd', 'R', 'o', 'u', 't', 'e'],
            RoutingAlgorithm::Fastest => seq!['f', 'a', 's', 't', 'e', 's', 't'],
            RoutingAlgorithm::LeastIntersections => seq!['l', 'e', 'a', 's', 't', 'I', 'n', 't', 'e', 'r', 's', 'e', 'c', 't', 'i', 'o', 'n', 's'],
            RoutingAlgorithm::Shortest => seq!['s', 'h', 'o', 'r', 't', 'e', 's', 't'],
            RoutingAlgorithm::Undefined => seq!['u', 'n', 'd', 'e', 'f', 'i', 'n', 'e', 'd'],
        }
    }

    /// The value written under `s`, if any.
    pub open spec fn from_wire_name(s: Seq<char>) -> Option<RoutingAlgorithm> {
        if s == RoutingAlgorithm::AssignedRoute.wire_name() {
            Some(RoutingAlgorithm::AssignedRoute)
        } else if s == RoutingAlgorithm::Fastest.wire_name() {
            Some(RoutingAlgorithm::Fastest)
        } else if s == RoutingAlgorithm::LeastIntersections.wire_name() {
            Some(RoutingAlgorithm::LeastIntersections)
        } else if s == RoutingAlgorithm::Shortest.wire_name() {
            Some(RoutingAlgorithm::Shortest)
        } else if s == RoutingAlgorithm::Undefined.wire_name() {
            Some(RoutingAlgorithm::Undefined)
        } else {
            None
        }
    }

    /// Every value, in declaration order.
    pub open spec fn all_values() -> Seq<RoutingAlgorithm> {
        seq![RoutingAlgorithm::AssignedRoute, RoutingAlgorithm::Fastest, RoutingAlgorithm::LeastIntersections, RoutingAlgorithm::Shortest, RoutingAlgorithm::Undefined]
    }

    /// The name under which this value is written.
    pub fn as_str(&self) -> (r: &'static str)
        ensures
            r@ == self.wire_name(),
    {
        match self {
            RoutingAlgorithm::AssignedRoute => {
                proof {
                    reveal_strlit("assignedRoute");
                }
                "assignedRoute"
            },
            RoutingAlgorithm::Fastest => {
                proof {
                    reveal_strlit("fastest");
                }
                "fastest"
            },
            RoutingAlgorithm::LeastIntersections => {
                proof {
                    reveal_strlit("leastIntersections");
                }
                "leastIntersections"
            },
            RoutingAlgorithm::Shortest => {
                proof {
                    reveal_strlit("shortest");
                }
                "shortest"
            },
            RoutingAlgorithm::Undefined => {
                proof {
                    reveal_strlit("undefined");
                }
                "undefined"
            },
        }
    }

    /// The name under which this value is written, as an owned string.
    pub fn to_string(&self) -> (r: String)
        ensures
            r@ == self.wire_name(),
    {
        self.as_str().to_owned()
    }

    /// The value written under `s`; an error message naming `s` when no value is.
    pub fn from_wire(s: &str) -> (r: Result<RoutingAlgorithm, String>)
        ensures
            match r {
                Ok(v) => RoutingAlgorithm::from_wire_name(s@) == Some(v),
                Err(m) => RoutingAlgorithm::from_wire_name(s@) is None && m@ == "Invalid RoutingAlgorithm: "@ + s@,
            },
    {
        if str_eq(s, RoutingAlgorithm::AssignedRoute.as_str()) {
            return Ok(RoutingAlgorithm::AssignedRoute);
        }
        if str_eq(s, RoutingAlgorithm::Fastest.as_str()) {
            return Ok(RoutingAlgorithm::Fastest);
        }
        if str_eq(s, RoutingAlgorithm::LeastIntersections.as_str()) {
            return Ok(RoutingAlgorithm::LeastIntersections);
        }
        if str_eq(s, RoutingAlgorithm::Shortest.as_str()) {
            return Ok(RoutingAlgorithm::Shortest);
        }
        if str_eq(s, RoutingAlgorithm::Undefined.as_str()) {
            return Ok(RoutingAlgorithm::Undefined);
        }
        let prefix: String = "Invalid RoutingAlgorithm: ".to_owned();
        Err(prefix.concat(s))
    }

    /// Every value, in declaration order.
    pub fn all() -> (r: Vec<RoutingAlgorithm>)
        ensures
            r@ == RoutingAlgorithm::all_values(),
    {
        let r = vec![RoutingAlgorithm::AssignedRoute, RoutingAlgorithm::Fastest, RoutingAlgorithm::LeastIntersections, RoutingAlgorithm::Shortest, RoutingAlgorithm::Undefined];
        assert(r@ =~= RoutingAlgorithm::all_values());
        r
    }

    /// The written names of the values, as documents write them: each value's name, and
    /// the value that each name is read as.
    pub proof fn lemma_written_names()
        ensures
            RoutingAlgorithm::AssignedRoute.wire_name() == "assignedRoute"@,
            RoutingAlgorithm::from_wire_name("assignedRoute"@) == Some(RoutingAlgorithm::AssignedRoute),
            RoutingAlgorithm::Fastest.wire_name() == "fastest"@,
            RoutingAlgorithm::from_wire_name("fastest"@) == Some(RoutingAlgorithm::Fastest),
            RoutingAlgorithm::LeastIntersections.wire_name() == "leastIntersections"@,
            RoutingAlgorithm::from_wire_name("leastIntersections"@) == Some(RoutingAlgorithm::LeastIntersections),
            RoutingAlgorithm::Shortest.wire_name() == "shortest"@,
            RoutingAlgorithm::from_wire_name("shortest"@) == Some(RoutingAlgorithm::Shortest),
            RoutingAlgorithm::Undefined.wire_name() == "undefined"@,
            RoutingAlgorithm::from_wire_name("undefined"@) == Some(RoutingAlgorithm::Undefined),
    {
        reveal_strlit("assignedRoute");
        assert("assignedRoute"@ =~= RoutingAlgorithm::AssignedRoute.wire_name());
        RoutingAlgorithm::lemma_wire_name_round_trip(RoutingAlgorithm::AssignedRoute);
        reveal_strlit("fastest");
        assert("fastest"@ =~= RoutingAlgorithm::Fastest.wire_name());
        RoutingAlgorithm::lemma_wire_name_round_trip(RoutingAlgorithm::Fastest);
        reveal_strlit("leastIntersections");
        assert("leastIntersections"@ =~= RoutingAlgorithm::LeastIntersections.wire_name());
        RoutingAlgorithm::lemma_wire_name_round_trip(RoutingAlgorithm::LeastIntersections);
        reveal_strlit("shortest");
        assert("shortest"@ =~= RoutingAlgorithm::Shortest.wire_name());
        RoutingAlgorithm::lemma_wire_name_round_trip(RoutingAlgorithm::Shortest);
        reveal_strlit("undefined");
        assert("undefined"@ =~= RoutingAlgorithm::Undefined.wire_name());
        RoutingAlgorithm::lemma_wire_name_round_trip(RoutingAlgorithm::Undefined);
    }

    /// A text that parses to a value is that value's name.
    pub proof fn lemma_parsed_text_is_wire_name(s: Seq<char>)
        ensures
            RoutingAlgorithm::from_wire_name(s) matches Some(v) ==> v.wire_name() == s,
    {
    }

    /// The name of a value parses back to that value.
    pub proof fn lemma_wire_name_round_trip(v: RoutingAlgorithm)
        ensures
            RoutingAlgorithm::from_wire_name(v.wire_name()) == Some(v),
    {
        match v {
            RoutingAlgorithm::AssignedRoute => {
            },
            RoutingAlgorithm::Fastest => {
                assert(RoutingAlgorithm::Fastest.wire_name().len() != RoutingAlgorithm::AssignedRoute.wire_name().len());
            },
            RoutingAlgorithm::LeastIntersections => {
                assert(RoutingAlgorithm::LeastIntersections.wire_name().len() != RoutingAlgorithm::AssignedRoute.wire_name().len());
                assert(RoutingAlgorithm::LeastIntersections.wire_name().len() != RoutingAlgorithm::Fastest.wire_name().len());
            },
            RoutingAlgorithm::Shortest => {
                assert(RoutingAlgorithm::Shortest.wire_name().len() != RoutingAlgorithm::AssignedRoute.wire_name().len());
                assert(RoutingAlgorithm::Shortest.wire_name().len() != RoutingAlgorithm::Fastest.wire_name().len());
                assert(RoutingAlgorithm::Shortest.wire_name().len() != RoutingAlgorithm::LeastIntersections.wire_name().len());
            },
            RoutingAlgorithm::Undefined => {
                assert(RoutingAlgorithm::Undefined.wire_name().len() != RoutingAlgorithm::AssignedRoute.wire_name().len());
                assert(RoutingAlgorithm::Undefined.wire_name().len() != RoutingAlgorithm::Fastest.wire_name().len());
                assert(RoutingAlgorithm::Undefined.wire_name().len() != RoutingAlgorithm::LeastIntersections.wire_name().len());
                assert(RoutingAlgorithm::Undefined.wire_name().len() != RoutingAlgorithm::Shortest.wire_name().len());
            },
        }
    }

}

impl Duplicate for RoutingAlgorithm {
    open spec fn same(&self, other: &Self) -> bool {
        *self == *other
    }

    fn copied(&self) -> (r: RoutingAlgorithm) {
        *self
    }
}

impl ParamValue for RoutingAlgorithm {
    open spec fn accepts(s: Seq<char>) -> bool {
        RoutingAlgorithm::from_wire_name(s) is Some
    }

    open spec fn denotes(s: Seq<char>, v: RoutingAlgorithm) -> bool {
        RoutingAlgorithm::from_wire_name(s) == Some(v)
    }

    open spec fn type_label() -> Seq<char> {
        "RoutingAlgorithm"@
    }

    fn parse_text(s: &str) -> (r: Option<RoutingAlgorithm>) {
        match RoutingAlgorithm::from_wire(s) {
            Ok(v) => Some(v),
            Err(_) => None,
        }
    }

    fn kind_name() -> (r: String) {
        "RoutingAlgorithm".to_owned()
    }

    proof fn lemma_same_is_equal(a: &Self, b: &Self) {
    }
}

impl std::str::FromStr for RoutingAlgorithm {
    type Err = String;

    fn from_str(s: &str) -> Result<RoutingAlgorithm, String> {
        RoutingAlgorithm::from_wire(s)
    }
}

/// Lateral displacement enumeration
#[derive(Debug, Clone, Copy, PartialEq, Eq, Hash)]
pub enum LateralDisplacement {
    Any,
    LeftToReferencedEntity,
    RightToReferencedEntity,
}

impl LateralDisplacement {
    /// The name under which this value is written.
    pub open spec fn wire_name(self) -> Seq<char> {
        match self {
            LateralDisplacement::Any => seq!['a', 'n', 'y'],
            LateralDisplacement::LeftToReferencedEntity => seq!['l', 'e', 'f', 't', 'T', 'o', 'R', 'e', 'f', 'e', 'r', 'e', 'n', 'c', 'e', 'd', 'E', 'n', 't', 'i', 't', 'y'],
            LateralDisplacement::RightToReferencedEntity => seq!['r', 'i', 'g', 'h', 't', 'T', 'o', 'R', 'e', 'f', 'e', 'r', 'e', 'n', 'c', 'e', 'd', 'E', 'n', 't', 'i', 't', 'y'],
        }
    }

    /// The value written under `s`, if any.
    pub open spec fn from_wire_name(s: Seq<char>) -> Option<LateralDisplacement> {
        if s == LateralDisplacement::Any.wire_name() {
            Some(LateralDisplacement::Any)
        } else if s == LateralDisplacement::LeftToReferencedEntity.wire_name() {
            Some(LateralDisplacement::LeftToReferencedEntity)
        } else if s == LateralDisplacement::RightToReferencedEntity.wire_name() {
            Some(LateralDisplacement::RightToReferencedEntity)
        } else {
            None
        }
    }

    /// Every value, in declaration order.
    pub open spec fn all_values() -> Seq<LateralDisplacement> {
        seq![LateralDisplacement::Any, LateralDisplacement::LeftToReferencedEntity, LateralDisplacement::RightToReferencedEntity]
    }

    /// The name under which this value is written.
    pub fn as_str(&self) -> (r: &'static str)
        ensures
            r@ == self.wire_name(),
    {
        match self {
            LateralDisplacement::Any => {
                proof {
                    reveal_strlit("any");
                }
                "any"
            },
            LateralDisplacement::LeftToReferencedEntity => {
                proof {
                    reveal_strlit("leftToReferencedEntity");
                }
                "leftToReferencedEntity"
            },
            LateralDisplacement::RightToReferencedEntity => {
                proof {
                    reveal_strlit("rightToReferencedEntity");
                }
                "rightToReferencedEntity"
            },
        }
    }

    /// The name under which this value is written, as an owned string.
    pub fn to_string(&self) -> (r: String)
        ensures
            r@ == self.wire_name(),
    {
        self.as_str().to_owned()
    }

    /// The value written under `s`; an error message naming `s` when no value is.
    pub fn from_wire(s: &str) -> (r: Result<LateralDisplacement, String>)
        ensures
            match r {
                Ok(v) => LateralDisplacement::from_wire_name(s@) == Some(v),
                Err(m) => LateralDisplacement::from_wire_name(s@) is None && m@ == "Invalid LateralDisplacement: "@ + s@,
            },
    {
        if str_eq(s, LateralDisplacement::Any.as_str()) {
            return Ok(LateralDisplacement::Any);
        }
        if str_eq(s, LateralDisplacement::LeftToReferencedEntity.as_str()) {
            return Ok(LateralDisplacement::LeftToReferencedEntity);
        }
        if str_eq(s, LateralDisplacement::RightToReferencedEntity.as_str()) {
            return Ok(LateralDisplacement::RightToReferencedEntity);
        }
        let prefix: String = "Invalid LateralDisplacement: ".to_owned();
        Err(prefix.concat(s))
    }

    /// Every value, in declaration order.
    pub fn all() -> (r: Vec<LateralDisplacement>)
        ensures
            r@ == LateralDisplacement::all_values(),
    {
        let r = vec![LateralDisplacement::Any, LateralDisplacement::LeftToReferencedEntity, LateralDisplacement::RightToReferencedEntity];
        assert(r@ =~= LateralDisplacement::all_values());
        r
    }

    /// The written names of the values, as documents write them: each value's name, and
    /// the value that each name is read as.
    pub proof fn lemma_written_names()
        ensures
            LateralDisplacement::Any.wire_name() == "any"@,
            LateralDisplacement::from_wire_name("any"@) == Some(LateralDisplacement::Any),
            LateralDisplacement::LeftToReferencedEntity.wire_name() == "leftToReferencedEntity"@,
            LateralDisplacement::from_wire_name("leftToReferencedEntity"@) == Some(LateralDisplacement::LeftToReferencedEntity),
            LateralDisplacement::RightToReferencedEntity.wire_name() == "rightToReferencedEntity"@,
            LateralDisplacement::from_wire_name("rightToReferencedEntity"@) == Some(LateralDisplacement::RightToReferencedEntity),
    {
        reveal_strlit("any");
        assert("any"@ =~= LateralDisplacement::Any.wire_name());
        LateralDisplacement::lemma_wire_name_round_trip(LateralDisplacement::Any);
        reveal_strlit("leftToReferencedEntity");
        assert("leftToReferencedEntity"@ =~= LateralDisplacement::LeftToReferencedEntity.wire_name());
        LateralDisplacement::lemma_wire_name_round_trip(LateralDisplacement::LeftToReferencedEntity);
        reveal_strlit("rightToReferencedEntity");
        assert("rightToReferencedEntity"@ =~= LateralDisplacement::RightToReferencedEntity.wire_name());
        LateralDisplacement::lemma_wire_name_round_trip(LateralDisplacement::RightToReferencedEntity);
    }

    /// A text that parses to a value is that value's name.
    pub proof fn lemma_parsed_text_is_wire_name(s: Seq<char>)
        ensures
            LateralDisplacement::from_wire_name(s) matches Some(v) ==> v.wire_name() == s,
    {
    }

    /// The name of a value parses back to that value.
    pub proof fn lemma_wire_name_round_trip(v: LateralDisplacement)
        ensures
            LateralDisplacement::from_wire_name(v.wire_name()) == Some(v),
    {
        match v {
            LateralDisplacement::Any => {
            },
            LateralDisplacement::LeftToReferencedEntity => {
                assert(LateralDisplacement::LeftToReferencedEntity.wire_name().len() != LateralDisplacement::Any.wire_name().len());
            },
            LateralDisplacement::RightToReferencedEntity => {
                assert(LateralDisplacement::RightToReferencedEntity.wire_name().len() != LateralDisplacement::Any.wire_name().len());
                assert(LateralDisplacement::RightToReferencedEntity.wire_name().len() != LateralDisplacement::LeftToReferencedEntity.wire_name().len());
            },
        }
    }

}

impl Duplicate for LateralDisplacement {
    open spec fn same(&self, other: &Self) -> bool {
        *self == *other
    }

    fn copied(&self) -> (r: LateralDisplacement) {
        *self
    }
}

impl ParamValue for LateralDisplacement {
    open spec fn accepts(s: Seq<char>) -> bool {
        LateralDisplacement::from_wire_name(s) is Some
    }

    open spec fn denotes(s: Seq<char>, v: LateralDisplacement) -> bool {
        LateralDisplacement::from_wire_name(s) == Some(v)
    }

    open spec fn type_label() -> Seq<char> {
        "LateralDisplacement"@
    }

    fn parse_text(s: &str) -> (r: Option<LateralDisplacement>) {
        match LateralDisplacement::from_wire(s) {
            Ok(v) => Some(v),
            Err(_) => None,
        }
    }

    fn kind_name() -> (r: String) {
        "LateralDisplacement".to_owned()
    }

    proof fn lemma_same_is_equal(a: &Self, b: &Self) {
    }
}

impl std::str::FromStr for LateralDisplacement {
    type Err = String;

    fn from_str(s: &str) -> Result<LateralDisplacement, String> {
        LateralDisplacement::from_wire(s)
    }
}

/// Longitudinal displacement enumeration
#[derive(Debug, Clone, Copy, PartialEq, Eq, Hash)]
pub enum LongitudinalDisplacement {
    Any,
    TrailingReferencedEntity,
    LeadingReferencedEntity,
}

impl LongitudinalDisplacement {
    /// The name under which this value is written.
    pub open spec fn wire_name(self) -> Seq<char> {
        match self {
            LongitudinalDisplacement::Any => seq!['a', 'n', 'y'],
            LongitudinalDisplacement::TrailingReferencedEntity => seq!['t', 'r', 'a', 'i', 'l', 'i', 'n', 'g', 'R', 'e', 'f', 'e', 'r', 'e', 'n', 'c', 'e', 'd', 'E', 'n', 't', 'i', 't', 'y'],
            LongitudinalDisplacement::LeadingReferencedEntity => seq!['l', 'e', 'a', 'd', 'i', 'n', 'g', 'R', 'e', 'f', 'e', 'r', 'e', 'n', 'c', 'e', 'd', 'E', 'n', 't', 'i', 't', 'y'],
        }
    }

    /// The value written under `s`, if any.
    pub open spec fn from_wire_name(s: Seq<char>) -> Option<LongitudinalDisplacement> {
        if s == LongitudinalDisplacement::Any.wire_name() {
            Some(LongitudinalDisplacement::Any)
        } else if s == LongitudinalDisplacement::TrailingReferencedEntity.wire_name() {
            Some(LongitudinalDisplacement::TrailingReferencedEntity)
        } else if s == LongitudinalDisplacement::LeadingReferencedEntity.wire_name() {
            Some(LongitudinalDisplacement::LeadingReferencedEntity)
        } else {
            None
        }
    }

    /// Every value, in declaration order.
    pub open spec fn all_values() -> Seq<LongitudinalDisplacement> {
        seq![LongitudinalDisplacement::Any, LongitudinalDisplacement::TrailingReferencedEntity, LongitudinalDisplacement::LeadingReferencedEntity]
    }

    /// The name under which this value is written.
    pub fn as_str(&self) -> (r: &'static str)
        ensures
            r@ == self.wire_name(),
    {
        match self {
            LongitudinalDisplacement::Any => {
                proof {
                    reveal_strlit("any");
                }
                "any"
            },
            LongitudinalDisplacement::TrailingReferencedEntity => {
                proof {
                    reveal_strlit("trailingReferencedEntity");
                }
                "trailingReferencedEntity"
            },
            LongitudinalDisplacement::LeadingReferencedEntity => {
                proof {
                    reveal_strlit("leadingReferencedEntity");
                }
                "leadingReferencedEntity"
            },
        }
    }

    /// The name under which this value is written, as an owned string.
    pub fn to_string(&self) -> (r: String)
        ensures
            r@ == self.wire_name(),
    {
        self.as_str().to_owned()
    }

    /// The value written under `s`; an error message naming `s` when no value is.
    pub fn from_wire(s: &str) -> (r: Result<LongitudinalDisplacement, String>)
        ensures
            match r {
                Ok(v) => LongitudinalDisplacement::from_wire_name(s@) == Some(v),
                Err(m) => LongitudinalDisplacement::from_wire_name(s@) is None && m@ == "Invalid LongitudinalDisplacement: "@ + s@,
            },
    {
        if str_eq(s, LongitudinalDisplacement::Any.as_str()) {
            return Ok(LongitudinalDisplacement::Any);
        }
        if str_eq(s, LongitudinalDisplacement::TrailingReferencedEntity.as_str()) {
            return Ok(LongitudinalDisplacement::TrailingReferencedEntity);
        }
        if str_eq(s, LongitudinalDisplacement::LeadingReferencedEntity.as_str()) {
            return Ok(LongitudinalDisplacement::LeadingReferencedEntity);
        }
        let prefix: String = "Invalid LongitudinalDisplacement: ".to_owned();
        Err(prefix.concat(s))
    }

    /// Every value, in declaration order.
    pub fn all() -> (r: Vec<LongitudinalDisplacement>)
        ensures
            r@ == LongitudinalDisplacement::all_values(),
    {
        let r = vec![LongitudinalDisplacement::Any, LongitudinalDisplacement::TrailingReferencedEntity, LongitudinalDisplacement::LeadingReferencedEntity];
        assert(r@ =~= LongitudinalDisplacement::all_values());
        r
    }

    /// The written names of the values, as documents write them: each value's name, and
    /// the value that each name is read as.
    pub proof fn lemma_written_names()
        ensures
            LongitudinalDisplacement::Any.wire_name() == "any"@,
            LongitudinalDisplacement::from_wire_name("any"@) == Some(LongitudinalDisplacement::Any),
            LongitudinalDisplacement::TrailingReferencedEntity.wire_name() == "trailingReferencedEntity"@,
            LongitudinalDisplacement::from_wire_name("trailingReferencedEntity"@) == Some(LongitudinalDisplacement::TrailingReferencedEntity),
            LongitudinalDisplacement::LeadingReferencedEntity.wire_name() == "leadingReferencedEntity"@,
            LongitudinalDisplacement::from_wire_name("leadingReferencedEntity"@) == Some(LongitudinalDisplacement::LeadingReferencedEntity),
    {
        reveal_strlit("any");
        assert("any"@ =~= LongitudinalDisplacement::Any.wire_name());
        LongitudinalDisplacement::lemma_wire_name_round_trip(LongitudinalDisplacement::Any);
        reveal_strlit("trailingReferencedEntity");
        assert("trailingReferencedEntity"@ =~= LongitudinalDisplacement::TrailingReferencedEntity.wire_name());
        LongitudinalDisplacement::lemma_wire_name_round_trip(LongitudinalDisplacement::TrailingReferencedEntity);
        reveal_strlit("leadingReferencedEntity");
        assert("leadingReferencedEntity"@ =~= LongitudinalDisplacement::LeadingReferencedEntity.wire_name());
        LongitudinalDisplacement::lemma_wire_name_round_trip(LongitudinalDisplacement::LeadingReferencedEntity);
    }

    /// A text that parses to a value is that value's name.
    pub proof fn lemma_parsed_text_is_wire_name(s: Seq<char>)
        ensures
            LongitudinalDisplacement::from_wire_name(s) matches Some(v) ==> v.wire_name() == s,
    {
    }

    /// The name of a value parses back to that value.
    pub proof fn lemma_wire_name_round_trip(v: LongitudinalDisplacement)
        ensures
            LongitudinalDisplacement::from_wire_name(v.wire_name()) == Some(v),
    {
        match v {
            LongitudinalDisplacement::Any => {
            },
            LongitudinalDisplacement::TrailingReferencedEntity => {
                assert(LongitudinalDisplacement::TrailingReferencedEntity.wire_name().len() != LongitudinalDisplacement::Any.wire_name().len());
            },
            LongitudinalDisplacement::LeadingReferencedEntity => {
                assert(LongitudinalDisplacement::LeadingReferencedEntity.wire_name().len() != LongitudinalDisplacement::Any.wire_name().len());
                assert(LongitudinalDisplacement::LeadingReferencedEntity.wire_name().len() != LongitudinalDisplacement::TrailingReferencedEntity.wire_name().len());
            },
        }
    }

}

impl Duplicate for LongitudinalDisplacement {
    open spec fn same(&self, other: &Self) -> bool {
        *self == *other
    }

    fn copied(&self) -> (r: LongitudinalDisplacement) {
        *self
    }
}

impl ParamValue for LongitudinalDisplacement {
    open spec fn accepts(s: Seq<char>) -> bool {
        LongitudinalDisplacement::from_wire_name(s) is Some
    }

    open spec fn denotes(s: Seq<char>, v: LongitudinalDisplacement) -> bool {
        LongitudinalDisplacement::from_wire_name(s) == Some(v)
    }

    open spec fn type_label() -> Seq<char> {
        "LongitudinalDisplacement"@
    }

    fn parse_text(s: &str) -> (r: Option<LongitudinalDisplacement>) {
        match LongitudinalDisplacement::from_wire(s) {
            Ok(v) => Some(v),
            Err(_) => None,
        }
    }

    fn kind_name() -> (r: String) {
        "LongitudinalDisplacement".to_owned()
    }

    proof fn lemma_same_is_equal(a: &Self, b: &Self) {
    }
}

impl std::str::FromStr for LongitudinalDisplacement {
    type Err = String;

    fn from_str(s: &str) -> Result<LongitudinalDisplacement, String> {
        LongitudinalDisplacement::from_wire(s)
    }
}

/// Cloud state enumeration (deprecated) (superseded by `FractionalCloudCover` in the schema)
#[derive(Debug, Clone, Copy, PartialEq, Eq, Hash)]
pub enum CloudState {
    Cloudy,
    Free,
    Overcast,
    Rainy,
    SkyOff,
}

impl CloudState {
    /// The name under which this value is written.
    pub open spec fn wire_name(self) -> Seq<char> {
        match self {
            CloudState::Cloudy => seq!['c', 'l', 'o', 'u', 'd', 'y'],
            CloudState::Free => seq!['f', 'r', 'e', 'e'],
            CloudState::Overcast => seq!['o', 'v', 'e', 'r', 'c', 'a', 's', 't'],
            CloudState::Rainy => seq!['r', 'a', 'i', 'n', 'y'],
            CloudState::SkyOff => seq!['s', 'k', 'y', 'O', 'f', 'f'],
        }
    }

    /// The value written under `s`, if any.
    pub open spec fn from_wire_name(s: Seq<char>) -> Option<CloudState> {
        if s == CloudState::Cloudy.wire_name() {
            Some(CloudState::Cloudy)
        } else if s == CloudState::Free.wire_name() {
            Some(CloudState::Free)
        } else if s == CloudState::Overcast.wire_name() {
            Some(CloudState::Overcast)
        } else if s == CloudState::Rainy.wire_name() {
            Some(CloudState::Rainy)
        } else if s == CloudState::SkyOff.wire_name() {
            Some(CloudState::SkyOff)
        } else {
            None
        }
    }

    /// Every value, in declaration order.
    pub open spec fn all_values() -> Seq<CloudState> {
        seq![CloudState::Cloudy, CloudState::Free, CloudState::Overcast, CloudState::Rainy, CloudState::SkyOff]
    }

    /// The name under which this value is written.
    pub fn as_str(&self) -> (r: &'static str)
        ensures
            r@ == self.wire_name(),
    {
        match self {
            CloudState::Cloudy => {
                proof {
                    reveal_strlit("cloudy");
                }
                "cloudy"
            },
            CloudState::Free => {
                proof {
                    reveal_strlit("free");
                }
                "free"
            },
            CloudState::Overcast => {
                proof {
                    reveal_strlit("overcast");
                }
                "overcast"
            },
            CloudState::Rainy => {
                proof {
                    reveal_strlit("rainy");
                }
                "rainy"
            },
            CloudState::SkyOff => {
                proof {
                    reveal_strlit("skyOff");
                }
                "skyOff"
            },
        }
    }

    /// The name under which this value is written, as an owned string.
    pub fn to_string(&self) -> (r: String)
        ensures
            r@ == self.wire_name(),
    {
        self.as_str().to_owned()
    }

    /// The value written under `s`; an error message naming `s` when no value is.
    pub fn from_wire(s: &str) -> (r: Result<CloudState, String>)
        ensures
            match r {
                Ok(v) => CloudState::from_wire_name(s@) == Some(v),
                Err(m) => CloudState::from_wire_name(s@) is None && m@ == "Invalid CloudState: "@ + s@,
            },
    {
        if str_eq(s, CloudState::Cloudy.as_str()) {
            return Ok(CloudState::Cloudy);
        }
        if str_eq(s, CloudState::Free.as_str()) {
            return Ok(CloudState::Free);
        }
        if str_eq(s, CloudState::Overcast.as_str()) {
            return Ok(CloudState::Overcast);
        }
        if str_eq(s, CloudState::Rainy.as_str()) {
            return Ok(CloudState::Rainy);
        }
        if str_eq(s, CloudState::SkyOff.as_str()) {
            return Ok(CloudState::SkyOff);
        }
        let prefix: String = "Invalid CloudState: ".to_owned();
        Err(prefix.concat(s))
    }

    /// Every value, in declaration order.
    pub fn all() -> (r: Vec<CloudState>)
        ensures
            r@ == CloudState::all_values(),
    {
        let r = vec![CloudState::Cloudy, CloudState::Free, CloudState::Overcast, CloudState::Rainy, CloudState::SkyOff];
        assert(r@ =~= CloudState::all_values());
        r
    }

    /// The written names of the values, as documents write them: each value's name, and
    /// the value that each name is read as.
    pub proof fn lemma_written_names()
        ensures
            CloudState::Cloudy.wire_name() == "cloudy"@,
            CloudState::from_wire_name("cloudy"@) == Some(CloudState::Cloudy),
            CloudState::Free.wire_name() == "free"@,
            CloudState::from_wire_name("free"@) == Some(CloudState::Free),
            CloudState::Overcast.wire_name() == "overcast"@,
            CloudState::from_wire_name("overcast"@) == Some(CloudState::Overcast),
            CloudState::Rainy.wire_name() == "rainy"@,
            CloudState::from_wire_name("rainy"@) == Some(CloudState::Rainy),
            CloudState::SkyOff.wire_name() == "skyOff"@,
            CloudState::from_wire_name("skyOff"@) == Some(CloudState::SkyOff),
    {
        reveal_strlit("cloudy");
        assert("cloudy"@ =~= CloudState::Cloudy.wire_name());
        CloudState::lemma_wire_name_round_trip(CloudState::Cloudy);
        reveal_strlit("free");
        assert("free"@ =~= CloudState::Free.wire_name());
        CloudState::lemma_wire_name_round_trip(CloudState::Free);
        reveal_strlit("overcast");
        assert("overcast"@ =~= CloudState::Overcast.wire_name());
        CloudState::lemma_wire_name_round_trip(CloudState::Overcast);
        reveal_strlit("rainy");
        assert("rainy"@ =~= CloudState::Rainy.wire_name());
        CloudState::lemma_wire_name_round_trip(CloudState::Rainy);
        reveal_strlit("skyOff");
        assert("skyOff"@ =~= CloudState::SkyOff.wire_name());
        CloudState::lemma_wire_name_round_trip(CloudState::SkyOff);
    }

    /// A text that parses to a value is that value's name.
    pub proof fn lemma_parsed_text_is_wire_name(s: Seq<char>)
        ensures
            CloudState::from_wire_name(s) matches Some(v) ==> v.wire_name() == s,
    {
    }

    /// The name of a value parses back to that value.
    pub proof fn lemma_wire_name_round_trip(v: CloudState)
        ensures
            CloudState::from_wire_name(v.wire_name()) == Some(v),
    {
        match v {
            CloudState::Cloudy => {
            },
            CloudState::Free => {
                assert(CloudState::Free.wire_name().len() != CloudState::Cloudy.wire_name().len());
            },
            CloudState::Overcast => {
                assert(CloudState::Overcast.wire_name().len() != CloudState::Cloudy.wire_name().len());
                assert(CloudState::Overcast.wire_name().len() != CloudState::Free.wire_name().len());
            },
            CloudState::Rainy => {
                assert(CloudState::Rainy.wire_name().len() != CloudState::Cloudy.wire_name().len());
                assert(CloudState::Rainy.wire_name().len() != CloudState::Free.wire_name().len());
                assert(CloudState::Rainy.wire_name().len() != CloudState::Overcast.wire_name().len());
            },
            CloudState::SkyOff => {
                assert(CloudState::SkyOff.wire_name()[0] != CloudState::Cloudy.wire_name()[0]);
                assert(CloudState::SkyOff.wire_name().len() != CloudState::Free.wire_name().len());
                assert(CloudState::SkyOff.wire_name().len() != CloudState::Overcast.wire_name().len());
                assert(CloudState::SkyOff.wire_name().len() != CloudState::Rainy.wire_name().len());
            },
        }
    }

}

impl Duplicate for CloudState {
    open spec fn same(&self, other: &Self) -> bool {
        *self == *other
    }

    fn copied(&self) -> (r: CloudState) {
        *self
    }
}

impl ParamValue for CloudState {
    open spec fn accepts(s: Seq<char>) -> bool {
        CloudState::from_wire_name(s) is Some
    }

    open spec fn denotes(s: Seq<char>, v: CloudState) -> bool {
        CloudState::from_wire_name(s) == Some(v)
    }

    open spec fn type_label() -> Seq<char> {
        "CloudState"@
    }

    fn parse_text(s: &str) -> (r: Option<CloudState>) {
        match CloudState::from_wire(s) {
            Ok(v) => Some(v),
            Err(_) => None,
        }
    }

    fn kind_name() -> (r: String) {
        "CloudState".to_owned()
    }

    proof fn lemma_same_is_equal(a: &Self, b: &Self) {
    }
}

impl std::str::FromStr for CloudState {
    type Err = String;

    fn from_str(s: &str) -> Result<CloudState, String> {
        CloudState::from_wire(s)
    }
}

} // verus!
