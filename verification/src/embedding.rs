//! The embeddings of the catalogue: every datatype derived by restriction is also a
//! datatype of each step above it, up to `Datatype` itself.
//!
//! `embed` takes a datatype one step up. `From` takes it any number of steps up.
use crate::datatype::{
    Datatype, DecimalDatatype, IntDatatype, IntegerDatatype, LongDatatype, NCNameDatatype,
    NameDatatype, NonNegativeIntegerDatatype, NonPositiveIntegerDatatype,
    NormalizedStringDatatype, ShortDatatype, StringDatatype, TokenDatatype, UnsignedIntDatatype,
    UnsignedLongDatatype, UnsignedShortDatatype,
};
use vstd::prelude::*;
use vstd::std_specs::convert::{FromSpec, FromSpecImpl};

verus! {

impl StringDatatype {
    /// This datatype, one step up: as a datatype of the catalogue.
    pub open spec fn embed(self) -> Datatype {
        Datatype::String(Some(self))
    }

    /// This datatype, derived from `xsd:string`, as a datatype of the catalogue.
    pub open spec fn datatype(self) -> Datatype {
        self.embed()
    }
}

impl NormalizedStringDatatype {
    /// This datatype, one step up: as one derived from `xsd:string`.
    pub open spec fn embed(self) -> StringDatatype {
        StringDatatype::NormalizedString(Some(self))
    }

    /// This datatype, derived from `xsd:normalizedString`, as a datatype of the catalogue.
    pub open spec fn datatype(self) -> Datatype {
        self.embed().embed()
    }
}

impl TokenDatatype {
    /// This datatype, one step up: as one derived from `xsd:normalizedString`.
    pub open spec fn embed(self) -> NormalizedStringDatatype {
        NormalizedStringDatatype::Token(Some(self))
    }

    /// This datatype, derived from `xsd:token`, as a datatype of the catalogue.
    pub open spec fn datatype(self) -> Datatype {
        self.embed().embed().embed()
    }
}

impl NameDatatype {
    /// This datatype, one step up: as one derived from `xsd:token`.
    pub open spec fn embed(self) -> TokenDatatype {
        TokenDatatype::Name(Some(self))
    }

    /// This datatype, derived from `xsd:Name`, as a datatype of the catalogue.
    pub open spec fn datatype(self) -> Datatype {
        self.embed().embed().embed().embed()
    }
}

impl NCNameDatatype {
    /// This datatype, one step up: as one derived from `xsd:Name`.
    pub open spec fn embed(self) -> NameDatatype {
        NameDatatype::NCName(Some(self))
    }

    /// This datatype, derived from `xsd:NCName`, as a datatype of the catalogue.
    pub open spec fn datatype(self) -> Datatype {
        self.embed().embed().embed().embed().embed()
    }
}

impl DecimalDatatype {
    /// This datatype, one step up: as a datatype of the catalogue.
    pub open spec fn embed(self) -> Datatype {
        Datatype::Decimal(Some(self))
    }

    /// This datatype, derived from `xsd:decimal`, as a datatype of the catalogue.
    pub open spec fn datatype(self) -> Datatype {
        self.embed()
    }
}

impl IntegerDatatype {
    /// This datatype, one step up: as one derived from `xsd:decimal`.
    pub open spec fn embed(self) -> DecimalDatatype {
        DecimalDatatype::Integer(Some(self))
    }

    /// This datatype, derived from `xsd:integer`, as a datatype of the catalogue.
    pub open spec fn datatype(self) -> Datatype {
        self.embed().embed()
    }
}

impl NonPositiveIntegerDatatype {
    /// This datatype, one step up: as one derived from `xsd:integer`.
    pub open spec fn embed(self) -> IntegerDatatype {
        IntegerDatatype::NonPositiveInteger(Some(self))
    }

    /// This datatype, derived from `xsd:nonPositiveInteger`, as a datatype of the catalogue.
    pub open spec fn datatype(self) -> Datatype {
        self.embed().embed().embed()
    }
}

impl LongDatatype {
    /// This datatype, one step up: as one derived from `xsd:integer`.
    pub open spec fn embed(self) -> IntegerDatatype {
        IntegerDatatype::Long(Some(self))
    }

    /// This datatype, derived from `xsd:long`, as a datatype of the catalogue.
    pub open spec fn datatype(self) -> Datatype {
        self.embed().embed().embed()
    }
}

impl IntDatatype {
    /// This datatype, one step up: as one derived from `xsd:long`.
    pub open spec fn embed(self) -> LongDatatype {
        LongDatatype::Int(Some(self))
    }

    /// This datatype, derived from `xsd:int`, as a datatype of the catalogue.
    pub open spec fn datatype(self) -> Datatype {
        self.embed().embed().embed().embed()
    }
}

impl ShortDatatype {
    /// This datatype, one step up: as one derived from `xsd:int`.
    pub open spec fn embed(self) -> IntDatatype {
        IntDatatype::Short(Some(self))
    }

    /// This datatype, derived from `xsd:short`, as a datatype of the catalogue.
    pub open spec fn datatype(self) -> Datatype {
        self.embed().embed().embed().embed().embed()
    }
}

impl NonNegativeIntegerDatatype {
    /// This datatype, one step up: as one derived from `xsd:integer`.
    pub open spec fn embed(self) -> IntegerDatatype {
        IntegerDatatype::NonNegativeInteger(Some(self))
    }

    /// This datatype, derived from `xsd:nonNegativeInteger`, as a datatype of the catalogue.
    pub open spec fn datatype(self) -> Datatype {
        self.embed().embed().embed()
    }
}

impl UnsignedLongDatatype {
    /// This datatype, one step up: as one derived from `xsd:nonNegativeInteger`.
    pub open spec fn embed(self) -> NonNegativeIntegerDatatype {
        NonNegativeIntegerDatatype::UnsignedLong(Some(self))
    }

    /// This datatype, derived from `xsd:unsignedLong`, as a datatype of the catalogue.
    pub open spec fn datatype(self) -> Datatype {
        self.embed().embed().embed().embed()
    }
}

impl UnsignedIntDatatype {
    /// This datatype, one step up: as one derived from `xsd:unsignedLong`.
    pub open spec fn embed(self) -> UnsignedLongDatatype {
        UnsignedLongDatatype::UnsignedInt(Some(self))
    }

    /// This datatype, derived from `xsd:unsignedInt`, as a datatype of the catalogue.
    pub open spec fn datatype(self) -> Datatype {
        self.embed().embed().embed().embed().embed()
    }
}

impl UnsignedShortDatatype {
    /// This datatype, one step up: as one derived from `xsd:unsignedInt`.
    pub open spec fn embed(self) -> UnsignedIntDatatype {
        UnsignedIntDatatype::UnsignedShort(Some(self))
    }

    /// This datatype, derived from `xsd:unsignedShort`, as a datatype of the catalogue.
    pub open spec fn datatype(self) -> Datatype {
        self.embed().embed().embed().embed().embed().embed()
    }
}

impl From<StringDatatype> for Datatype {
    fn from(t: StringDatatype) -> (r: Self) {
        Datatype::String(Some(t))
    }
}

impl FromSpecImpl<StringDatatype> for Datatype {
    open spec fn obeys_from_spec() -> bool {
        true
    }

    open spec fn from_spec(t: StringDatatype) -> Self {
        t.embed()
    }
}

impl From<NormalizedStringDatatype> for StringDatatype {
    fn from(t: NormalizedStringDatatype) -> (r: Self) {
        StringDatatype::NormalizedString(Some(t))
    }
}

impl FromSpecImpl<NormalizedStringDatatype> for StringDatatype {
    open spec fn obeys_from_spec() -> bool {
        true
    }

    open spec fn from_spec(t: NormalizedStringDatatype) -> Self {
        t.embed()
    }
}

impl From<NormalizedStringDatatype> for Datatype {
    fn from(t: NormalizedStringDatatype) -> (r: Self) {
        Datatype::String(Some(StringDatatype::from(t)))
    }
}

impl FromSpecImpl<NormalizedStringDatatype> for Datatype {
    open spec fn obeys_from_spec() -> bool {
        true
    }

    open spec fn from_spec(t: NormalizedStringDatatype) -> Self {
        t.embed().embed()
    }
}

impl From<TokenDatatype> for NormalizedStringDatatype {
    fn from(t: TokenDatatype) -> (r: Self) {
        NormalizedStringDatatype::Token(Some(t))
    }
}

impl FromSpecImpl<TokenDatatype> for NormalizedStringDatatype {
    open spec fn obeys_from_spec() -> bool {
        true
    }

    open spec fn from_spec(t: TokenDatatype) -> Self {
        t.embed()
    }
}

impl From<TokenDatatype> for StringDatatype {
    fn from(t: TokenDatatype) -> (r: Self) {
        StringDatatype::NormalizedString(Some(NormalizedStringDatatype::from(t)))
    }
}

impl FromSpecImpl<TokenDatatype> for StringDatatype {
    open spec fn obeys_from_spec() -> bool {
        true
    }

    open spec fn from_spec(t: TokenDatatype) -> Self {
        t.embed().embed()
    }
}

impl From<TokenDatatype> for Datatype {
    fn from(t: TokenDatatype) -> (r: Self) {
        Datatype::String(Some(StringDatatype::from(t)))
    }
}

impl FromSpecImpl<TokenDatatype> for Datatype {
    open spec fn obeys_from_spec() -> bool {
        true
    }

    open spec fn from_spec(t: TokenDatatype) -> Self {
        t.embed().embed().embed()
    }
}

impl From<NameDatatype> for TokenDatatype {
    fn from(t: NameDatatype) -> (r: Self) {
        TokenDatatype::Name(Some(t))
    }
}

impl FromSpecImpl<NameDatatype> for TokenDatatype {
    open spec fn obeys_from_spec() -> bool {
        true
    }

    open spec fn from_spec(t: NameDatatype) -> Self {
        t.embed()
    }
}

impl From<NameDatatype> for NormalizedStringDatatype {
    fn from(t: NameDatatype) -> (r: Self) {
        NormalizedStringDatatype::Token(Some(TokenDatatype::from(t)))
    }
}

impl FromSpecImpl<NameDatatype> for NormalizedStringDatatype {
    open spec fn obeys_from_spec() -> bool {
        true
    }

    open spec fn from_spec(t: NameDatatype) -> Self {
        t.embed().embed()
    }
}

impl From<NameDatatype> for StringDatatype {
    fn from(t: NameDatatype) -> (r: Self) {
        StringDatatype::NormalizedString(Some(NormalizedStringDatatype::from(t)))
    }
}

impl FromSpecImpl<NameDatatype> for StringDatatype {
    open spec fn obeys_from_spec() -> bool {
        true
    }

    open spec fn from_spec(t: NameDatatype) -> Self {
        t.embed().embed().embed()
    }
}

impl From<NameDatatype> for Datatype {
    fn from(t: NameDatatype) -> (r: Self) {
        Datatype::String(Some(StringDatatype::from(t)))
    }
}

impl FromSpecImpl<NameDatatype> for Datatype {
    open spec fn obeys_from_spec() -> bool {
        true
    }

    open spec fn from_spec(t: NameDatatype) -> Self {
        t.embed().embed().embed().embed()
    }
}

impl From<NCNameDatatype> for NameDatatype {
    fn from(t: NCNameDatatype) -> (r: Self) {
        NameDatatype::NCName(Some(t))
    }
}

impl FromSpecImpl<NCNameDatatype> for NameDatatype {
    open spec fn obeys_from_spec() -> bool {
        true
    }

    open spec fn from_spec(t: NCNameDatatype) -> Self {
        t.embed()
    }
}

impl From<NCNameDatatype> for TokenDatatype {
    fn from(t: NCNameDatatype) -> (r: Self) {
        TokenDatatype::Name(Some(NameDatatype::from(t)))
    }
}

impl FromSpecImpl<NCNameDatatype> for TokenDatatype {
    open spec fn obeys_from_spec() -> bool {
        true
    }

    open spec fn from_spec(t: NCNameDatatype) -> Self {
        t.embed().embed()
    }
}

impl From<NCNameDatatype> for NormalizedStringDatatype {
    fn from(t: NCNameDatatype) -> (r: Self) {
        NormalizedStringDatatype::Token(Some(TokenDatatype::from(t)))
    }
}

impl FromSpecImpl<NCNameDatatype> for NormalizedStringDatatype {
    open spec fn obeys_from_spec() -> bool {
        true
    }

    open spec fn from_spec(t: NCNameDatatype) -> Self {
        t.embed().embed().embed()
    }
}

impl From<NCNameDatatype> for StringDatatype {
    fn from(t: NCNameDatatype) -> (r: Self) {
        StringDatatype::NormalizedString(Some(NormalizedStringDatatype::from(t)))
    }
}

impl FromSpecImpl<NCNameDatatype> for StringDatatype {
    open spec fn obeys_from_spec() -> bool {
        true
    }

    open spec fn from_spec(t: NCNameDatatype) -> Self {
        t.embed().embed().embed().embed()
    }
}

impl From<NCNameDatatype> for Datatype {
    fn from(t: NCNameDatatype) -> (r: Self) {
        Datatype::String(Some(StringDatatype::from(t)))
    }
}

impl FromSpecImpl<NCNameDatatype> for Datatype {
    open spec fn obeys_from_spec() -> bool {
        true
    }

    open spec fn from_spec(t: NCNameDatatype) -> Self {
        t.embed().embed().embed().embed().embed()
    }
}

impl From<DecimalDatatype> for Datatype {
    fn from(t: DecimalDatatype) -> (r: Self) {
        Datatype::Decimal(Some(t))
    }
}

impl FromSpecImpl<DecimalDatatype> for Datatype {
    open spec fn obeys_from_spec() -> bool {
        true
    }

    open spec fn from_spec(t: DecimalDatatype) -> Self {
        t.embed()
    }
}

impl From<IntegerDatatype> for DecimalDatatype {
    fn from(t: IntegerDatatype) -> (r: Self) {
        DecimalDatatype::Integer(Some(t))
    }
}

impl FromSpecImpl<IntegerDatatype> for DecimalDatatype {
    open spec fn obeys_from_spec() -> bool {
        true
    }

    open spec fn from_spec(t: IntegerDatatype) -> Self {
        t.embed()
    }
}

impl From<IntegerDatatype> for Datatype {
    fn from(t: IntegerDatatype) -> (r: Self) {
        Datatype::Decimal(Some(DecimalDatatype::from(t)))
    }
}

impl FromSpecImpl<IntegerDatatype> for Datatype {
    open spec fn obeys_from_spec() -> bool {
        true
    }

    open spec fn from_spec(t: IntegerDatatype) -> Self {
        t.embed().embed()
    }
}

impl From<NonPositiveIntegerDatatype> for IntegerDatatype {
    fn from(t: NonPositiveIntegerDatatype) -> (r: Self) {
        IntegerDatatype::NonPositiveInteger(Some(t))
    }
}

impl FromSpecImpl<NonPositiveIntegerDatatype> for IntegerDatatype {
    open spec fn obeys_from_spec() -> bool {
        true
    }

    open spec fn from_spec(t: NonPositiveIntegerDatatype) -> Self {
        t.embed()
    }
}

impl From<NonPositiveIntegerDatatype> for DecimalDatatype {
    fn from(t: NonPositiveIntegerDatatype) -> (r: Self) {
        DecimalDatatype::Integer(Some(IntegerDatatype::from(t)))
    }
}

impl FromSpecImpl<NonPositiveIntegerDatatype> for DecimalDatatype {
    open spec fn obeys_from_spec() -> bool {
        true
    }

    open spec fn from_spec(t: NonPositiveIntegerDatatype) -> Self {
        t.embed().embed()
    }
}

impl From<NonPositiveIntegerDatatype> for Datatype {
    fn from(t: NonPositiveIntegerDatatype) -> (r: Self) {
        Datatype::Decimal(Some(DecimalDatatype::from(t)))
    }
}

impl FromSpecImpl<NonPositiveIntegerDatatype> for Datatype {
    open spec fn obeys_from_spec() -> bool {
        true
    }

    open spec fn from_spec(t: NonPositiveIntegerDatatype) -> Self {
        t.embed().embed().embed()
    }
}

impl From<LongDatatype> for IntegerDatatype {
    fn from(t: LongDatatype) -> (r: Self) {
        IntegerDatatype::Long(Some(t))
    }
}

impl FromSpecImpl<LongDatatype> for IntegerDatatype {
    open spec fn obeys_from_spec() -> bool {
        true
    }

    open spec fn from_spec(t: LongDatatype) -> Self {
        t.embed()
    }
}

impl From<LongDatatype> for DecimalDatatype {
    fn from(t: LongDatatype) -> (r: Self) {
        DecimalDatatype::Integer(Some(IntegerDatatype::from(t)))
    }
}

impl FromSpecImpl<LongDatatype> for DecimalDatatype {
    open spec fn obeys_from_spec() -> bool {
        true
    }

    open spec fn from_spec(t: LongDatatype) -> Self {
        t.embed().embed()
    }
}

impl From<LongDatatype> for Datatype {
    fn from(t: LongDatatype) -> (r: Self) {
        Datatype::Decimal(Some(DecimalDatatype::from(t)))
    }
}

impl FromSpecImpl<LongDatatype> for Datatype {
    open spec fn obeys_from_spec() -> bool {
        true
    }

    open spec fn from_spec(t: LongDatatype) -> Self {
        t.embed().embed().embed()
    }
}

impl From<IntDatatype> for LongDatatype {
    fn from(t: IntDatatype) -> (r: Self) {
        LongDatatype::Int(Some(t))
    }
}

impl FromSpecImpl<IntDatatype> for LongDatatype {
    open spec fn obeys_from_spec() -> bool {
        true
    }

    open spec fn from_spec(t: IntDatatype) -> Self {
        t.embed()
    }
}

impl From<IntDatatype> for IntegerDatatype {
    fn from(t: IntDatatype) -> (r: Self) {
        IntegerDatatype::Long(Some(LongDatatype::from(t)))
    }
}

impl FromSpecImpl<IntDatatype> for IntegerDatatype {
    open spec fn obeys_from_spec() -> bool {
        true
    }

    open spec fn from_spec(t: IntDatatype) -> Self {
        t.embed().embed()
    }
}

impl From<IntDatatype> for DecimalDatatype {
    fn from(t: IntDatatype) -> (r: Self) {
        DecimalDatatype::Integer(Some(IntegerDatatype::from(t)))
    }
}

impl FromSpecImpl<IntDatatype> for DecimalDatatype {
    open spec fn obeys_from_spec() -> bool {
        true
    }

    open spec fn from_spec(t: IntDatatype) -> Self {
        t.embed().embed().embed()
    }
}

impl From<IntDatatype> for Datatype {
    fn from(t: IntDatatype) -> (r: Self) {
        Datatype::Decimal(Some(DecimalDatatype::from(t)))
    }
}

impl FromSpecImpl<IntDatatype> for Datatype {
    open spec fn obeys_from_spec() -> bool {
        true
    }

    open spec fn from_spec(t: IntDatatype) -> Self {
        t.embed().embed().embed().embed()
    }
}

impl From<ShortDatatype> for IntDatatype {
    fn from(t: ShortDatatype) -> (r: Self) {
        IntDatatype::Short(Some(t))
    }
}

impl FromSpecImpl<ShortDatatype> for IntDatatype {
    open spec fn obeys_from_spec() -> bool {
        true
    }

    open spec fn from_spec(t: ShortDatatype) -> Self {
        t.embed()
    }
}

impl From<ShortDatatype> for LongDatatype {
    fn from(t: ShortDatatype) -> (r: Self) {
        LongDatatype::Int(Some(IntDatatype::from(t)))
    }
}

impl FromSpecImpl<ShortDatatype> for LongDatatype {
    open spec fn obeys_from_spec() -> bool {
        true
    }

    open spec fn from_spec(t: ShortDatatype) -> Self {
        t.embed().embed()
    }
}

impl From<ShortDatatype> for IntegerDatatype {
    fn from(t: ShortDatatype) -> (r: Self) {
        IntegerDatatype::Long(Some(LongDatatype::from(t)))
    }
}

impl FromSpecImpl<ShortDatatype> for IntegerDatatype {
    open spec fn obeys_from_spec() -> bool {
        true
    }

    open spec fn from_spec(t: ShortDatatype) -> Self {
        t.embed().embed().embed()
    }
}

impl From<ShortDatatype> for DecimalDatatype {
    fn from(t: ShortDatatype) -> (r: Self) {
        DecimalDatatype::Integer(Some(IntegerDatatype::from(t)))
    }
}

impl FromSpecImpl<ShortDatatype> for DecimalDatatype {
    open spec fn obeys_from_spec() -> bool {
        true
    }

    open spec fn from_spec(t: ShortDatatype) -> Self {
        t.embed().embed().embed().embed()
    }
}

impl From<ShortDatatype> for Datatype {
    fn from(t: ShortDatatype) -> (r: Self) {
        Datatype::Decimal(Some(DecimalDatatype::from(t)))
    }
}

impl FromSpecImpl<ShortDatatype> for Datatype {
    open spec fn obeys_from_spec() -> bool {
        true
    }

    open spec fn from_spec(t: ShortDatatype) -> Self {
        t.embed().embed().embed().embed().embed()
    }
}

impl From<NonNegativeIntegerDatatype> for IntegerDatatype {
    fn from(t: NonNegativeIntegerDatatype) -> (r: Self) {
        IntegerDatatype::NonNegativeInteger(Some(t))
    }
}

impl FromSpecImpl<NonNegativeIntegerDatatype> for IntegerDatatype {
    open spec fn obeys_from_spec() -> bool {
        true
    }

    open spec fn from_spec(t: NonNegativeIntegerDatatype) -> Self {
        t.embed()
    }
}

impl From<NonNegativeIntegerDatatype> for DecimalDatatype {
    fn from(t: NonNegativeIntegerDatatype) -> (r: Self) {
        DecimalDatatype::Integer(Some(IntegerDatatype::from(t)))
    }
}

impl FromSpecImpl<NonNegativeIntegerDatatype> for DecimalDatatype {
    open spec fn obeys_from_spec() -> bool {
        true
    }

    open spec fn from_spec(t: NonNegativeIntegerDatatype) -> Self {
        t.embed().embed()
    }
}

impl From<NonNegativeIntegerDatatype> for Datatype {
    fn from(t: NonNegativeIntegerDatatype) -> (r: Self) {
        Datatype::Decimal(Some(DecimalDatatype::from(t)))
    }
}

impl FromSpecImpl<NonNegativeIntegerDatatype> for Datatype {
    open spec fn obeys_from_spec() -> bool {
        true
    }

    open spec fn from_spec(t: NonNegativeIntegerDatatype) -> Self {
        t.embed().embed().embed()
    }
}

impl From<UnsignedLongDatatype> for NonNegativeIntegerDatatype {
    fn from(t: UnsignedLongDatatype) -> (r: Self) {
        NonNegativeIntegerDatatype::UnsignedLong(Some(t))
    }
}

impl FromSpecImpl<UnsignedLongDatatype> for NonNegativeIntegerDatatype {
    open spec fn obeys_from_spec() -> bool {
        true
    }

    open spec fn from_spec(t: UnsignedLongDatatype) -> Self {
        t.embed()
    }
}

impl From<UnsignedLongDatatype> for IntegerDatatype {
    fn from(t: UnsignedLongDatatype) -> (r: Self) {
        IntegerDatatype::NonNegativeInteger(Some(NonNegativeIntegerDatatype::from(t)))
    }
}

impl FromSpecImpl<UnsignedLongDatatype> for IntegerDatatype {
    open spec fn obeys_from_spec() -> bool {
        true
    }

    open spec fn from_spec(t: UnsignedLongDatatype) -> Self {
        t.embed().embed()
    }
}

impl From<UnsignedLongDatatype> for DecimalDatatype {
    fn from(t: UnsignedLongDatatype) -> (r: Self) {
        DecimalDatatype::Integer(Some(IntegerDatatype::from(t)))
    }
}

impl FromSpecImpl<UnsignedLongDatatype> for DecimalDatatype {
    open spec fn obeys_from_spec() -> bool {
        true
    }

    open spec fn from_spec(t: UnsignedLongDatatype) -> Self {
        t.embed().embed().embed()
    }
}

impl From<UnsignedLongDatatype> for Datatype {
    fn from(t: UnsignedLongDatatype) -> (r: Self) {
        Datatype::Decimal(Some(DecimalDatatype::from(t)))
    }
}

impl FromSpecImpl<UnsignedLongDatatype> for Datatype {
    open spec fn obeys_from_spec() -> bool {
        true
    }

    open spec fn from_spec(t: UnsignedLongDatatype) -> Self {
        t.embed().embed().embed().embed()
    }
}

impl From<UnsignedIntDatatype> for UnsignedLongDatatype {
    fn from(t: UnsignedIntDatatype) -> (r: Self) {
        UnsignedLongDatatype::UnsignedInt(Some(t))
    }
}

impl FromSpecImpl<UnsignedIntDatatype> for UnsignedLongDatatype {
    open spec fn obeys_from_spec() -> bool {
        true
    }

    open spec fn from_spec(t: UnsignedIntDatatype) -> Self {
        t.embed()
    }
}

impl From<UnsignedIntDatatype> for NonNegativeIntegerDatatype {
    fn from(t: UnsignedIntDatatype) -> (r: Self) {
        NonNegativeIntegerDatatype::UnsignedLong(Some(UnsignedLongDatatype::from(t)))
    }
}

impl FromSpecImpl<UnsignedIntDatatype> for NonNegativeIntegerDatatype {
    open spec fn obeys_from_spec() -> bool {
        true
    }

    open spec fn from_spec(t: UnsignedIntDatatype) -> Self {
        t.embed().embed()
    }
}

impl From<UnsignedIntDatatype> for IntegerDatatype {
    fn from(t: UnsignedIntDatatype) -> (r: Self) {
        IntegerDatatype::NonNegativeInteger(Some(NonNegativeIntegerDatatype::from(t)))
    }
}

impl FromSpecImpl<UnsignedIntDatatype> for IntegerDatatype {
    open spec fn obeys_from_spec() -> bool {
        true
    }

    open spec fn from_spec(t: UnsignedIntDatatype) -> Self {
        t.embed().embed().embed()
    }
}

impl From<UnsignedIntDatatype> for DecimalDatatype {
    fn from(t: UnsignedIntDatatype) -> (r: Self) {
        DecimalDatatype::Integer(Some(IntegerDatatype::from(t)))
    }
}

impl FromSpecImpl<UnsignedIntDatatype> for DecimalDatatype {
    open spec fn obeys_from_spec() -> bool {
        true
    }

    open spec fn from_spec(t: UnsignedIntDatatype) -> Self {
        t.embed().embed().embed().embed()
    }
}

impl From<UnsignedIntDatatype> for Datatype {
    fn from(t: UnsignedIntDatatype) -> (r: Self) {
        Datatype::Decimal(Some(DecimalDatatype::from(t)))
    }
}

impl FromSpecImpl<UnsignedIntDatatype> for Datatype {
    open spec fn obeys_from_spec() -> bool {
        true
    }

    open spec fn from_spec(t: UnsignedIntDatatype) -> Self {
        t.embed().embed().embed().embed().embed()
    }
}

impl From<UnsignedShortDatatype> for UnsignedIntDatatype {
    fn from(t: UnsignedShortDatatype) -> (r: Self) {
        UnsignedIntDatatype::UnsignedShort(Some(t))
    }
}

impl FromSpecImpl<UnsignedShortDatatype> for UnsignedIntDatatype {
    open spec fn obeys_from_spec() -> bool {
        true
    }

    open spec fn from_spec(t: UnsignedShortDatatype) -> Self {
        t.embed()
    }
}

impl From<UnsignedShortDatatype> for UnsignedLongDatatype {
    fn from(t: UnsignedShortDatatype) -> (r: Self) {
        UnsignedLongDatatype::UnsignedInt(Some(UnsignedIntDatatype::from(t)))
    }
}

impl FromSpecImpl<UnsignedShortDatatype> for UnsignedLongDatatype {
    open spec fn obeys_from_spec() -> bool {
        true
    }

    open spec fn from_spec(t: UnsignedShortDatatype) -> Self {
        t.embed().embed()
    }
}

impl From<UnsignedShortDatatype> for NonNegativeIntegerDatatype {
    fn from(t: UnsignedShortDatatype) -> (r: Self) {
        NonNegativeIntegerDatatype::UnsignedLong(Some(UnsignedLongDatatype::from(t)))
    }
}

impl FromSpecImpl<UnsignedShortDatatype> for NonNegativeIntegerDatatype {
    open spec fn obeys_from_spec() -> bool {
        true
    }

    open spec fn from_spec(t: UnsignedShortDatatype) -> Self {
        t.embed().embed().embed()
    }
}

impl From<UnsignedShortDatatype> for IntegerDatatype {
    fn from(t: UnsignedShortDatatype) -> (r: Self) {
        IntegerDatatype::NonNegativeInteger(Some(NonNegativeIntegerDatatype::from(t)))
    }
}

impl FromSpecImpl<UnsignedShortDatatype> for IntegerDatatype {
    open spec fn obeys_from_spec() -> bool {
        true
    }

    open spec fn from_spec(t: UnsignedShortDatatype) -> Self {
        t.embed().embed().embed().embed()
    }
}

impl From<UnsignedShortDatatype> for DecimalDatatype {
    fn from(t: UnsignedShortDatatype) -> (r: Self) {
        DecimalDatatype::Integer(Some(IntegerDatatype::from(t)))
    }
}

impl FromSpecImpl<UnsignedShortDatatype> for DecimalDatatype {
    open spec fn obeys_from_spec() -> bool {
        true
    }

    open spec fn from_spec(t: UnsignedShortDatatype) -> Self {
        t.embed().embed().embed().embed().embed()
    }
}

impl From<UnsignedShortDatatype> for Datatype {
    fn from(t: UnsignedShortDatatype) -> (r: Self) {
        Datatype::Decimal(Some(DecimalDatatype::from(t)))
    }
}

impl FromSpecImpl<UnsignedShortDatatype> for Datatype {
    open spec fn obeys_from_spec() -> bool {
        true
    }

    open spec fn from_spec(t: UnsignedShortDatatype) -> Self {
        t.embed().embed().embed().embed().embed().embed()
    }
}

/// A datatype derived from `xsd:string` keeps its IRI as a datatype of the catalogue.
pub proof fn lemma_string_embedding_keeps_iri(t: StringDatatype)
    ensures
        t.datatype().spec_iri() == t.spec_iri(),
{
}

/// A datatype derived from `xsd:normalizedString` keeps its IRI as a datatype of the catalogue.
pub proof fn lemma_normalized_string_embedding_keeps_iri(t: NormalizedStringDatatype)
    ensures
        t.datatype().spec_iri() == t.spec_iri(),
{
}

/// A datatype derived from `xsd:token` keeps its IRI as a datatype of the catalogue.
pub proof fn lemma_token_embedding_keeps_iri(t: TokenDatatype)
    ensures
        t.datatype().spec_iri() == t.spec_iri(),
{
}

/// A datatype derived from `xsd:Name` keeps its IRI as a datatype of the catalogue.
pub proof fn lemma_name_embedding_keeps_iri(t: NameDatatype)
    ensures
        t.datatype().spec_iri() == t.spec_iri(),
{
}

/// A datatype derived from `xsd:NCName` keeps its IRI as a datatype of the catalogue.
pub proof fn lemma_nc_name_embedding_keeps_iri(t: NCNameDatatype)
    ensures
        t.datatype().spec_iri() == t.spec_iri(),
{
}

/// A datatype derived from `xsd:decimal` keeps its IRI as a datatype of the catalogue.
pub proof fn lemma_decimal_embedding_keeps_iri(t: DecimalDatatype)
    ensures
        t.datatype().spec_iri() == t.spec_iri(),
{
}

/// A datatype derived from `xsd:integer` keeps its IRI as a datatype of the catalogue.
pub proof fn lemma_integer_embedding_keeps_iri(t: IntegerDatatype)
    ensures
        t.datatype().spec_iri() == t.spec_iri(),
{
}

/// A datatype derived from `xsd:nonPositiveInteger` keeps its IRI as a datatype of the catalogue.
pub proof fn lemma_non_positive_integer_embedding_keeps_iri(t: NonPositiveIntegerDatatype)
    ensures
        t.datatype().spec_iri() == t.spec_iri(),
{
}

/// A datatype derived from `xsd:long` keeps its IRI as a datatype of the catalogue.
pub proof fn lemma_long_embedding_keeps_iri(t: LongDatatype)
    ensures
        t.datatype().spec_iri() == t.spec_iri(),
{
}

/// A datatype derived from `xsd:int` keeps its IRI as a datatype of the catalogue.
pub proof fn lemma_int_embedding_keeps_iri(t: IntDatatype)
    ensures
        t.datatype().spec_iri() == t.spec_iri(),
{
}

/// A datatype derived from `xsd:short` keeps its IRI as a datatype of the catalogue.
pub proof fn lemma_short_embedding_keeps_iri(t: ShortDatatype)
    ensures
        t.datatype().spec_iri() == t.spec_iri(),
{
}

/// A datatype derived from `xsd:nonNegativeInteger` keeps its IRI as a datatype of the catalogue.
pub proof fn lemma_non_negative_integer_embedding_keeps_iri(t: NonNegativeIntegerDatatype)
    ensures
        t.datatype().spec_iri() == t.spec_iri(),
{
}

/// A datatype derived from `xsd:unsignedLong` keeps its IRI as a datatype of the catalogue.
pub proof fn lemma_unsigned_long_embedding_keeps_iri(t: UnsignedLongDatatype)
    ensures
        t.datatype().spec_iri() == t.spec_iri(),
{
}

/// A datatype derived from `xsd:unsignedInt` keeps its IRI as a datatype of the catalogue.
pub proof fn lemma_unsigned_int_embedding_keeps_iri(t: UnsignedIntDatatype)
    ensures
        t.datatype().spec_iri() == t.spec_iri(),
{
}

/// A datatype derived from `xsd:unsignedShort` keeps its IRI as a datatype of the catalogue.
pub proof fn lemma_unsigned_short_embedding_keeps_iri(t: UnsignedShortDatatype)
    ensures
        t.datatype().spec_iri() == t.spec_iri(),
{
}

/// Embedding a datatype derived from `xsd:normalizedString` by way of a step above it gives what
/// embedding it at once gives.
pub proof fn lemma_normalized_string_embeddings_compose(t: NormalizedStringDatatype)
    ensures
        <Datatype as FromSpec<StringDatatype>>::from_spec(
            <StringDatatype as FromSpec<NormalizedStringDatatype>>::from_spec(t),
        ) == <Datatype as FromSpec<NormalizedStringDatatype>>::from_spec(t),
{
}

/// Embedding a datatype derived from `xsd:token` by way of a step above it gives what
/// embedding it at once gives.
pub proof fn lemma_token_embeddings_compose(t: TokenDatatype)
    ensures
        <StringDatatype as FromSpec<NormalizedStringDatatype>>::from_spec(
            <NormalizedStringDatatype as FromSpec<TokenDatatype>>::from_spec(t),
        ) == <StringDatatype as FromSpec<TokenDatatype>>::from_spec(t),
        <Datatype as FromSpec<NormalizedStringDatatype>>::from_spec(
            <NormalizedStringDatatype as FromSpec<TokenDatatype>>::from_spec(t),
        ) == <Datatype as FromSpec<TokenDatatype>>::from_spec(t),
        <Datatype as FromSpec<StringDatatype>>::from_spec(
            <StringDatatype as FromSpec<TokenDatatype>>::from_spec(t),
        ) == <Datatype as FromSpec<TokenDatatype>>::from_spec(t),
{
}

/// Embedding a datatype derived from `xsd:Name` by way of a step above it gives what
/// embedding it at once gives.
pub proof fn lemma_name_embeddings_compose(t: NameDatatype)
    ensures
        <NormalizedStringDatatype as FromSpec<TokenDatatype>>::from_spec(
            <TokenDatatype as FromSpec<NameDatatype>>::from_spec(t),
        ) == <NormalizedStringDatatype as FromSpec<NameDatatype>>::from_spec(t),
        <StringDatatype as FromSpec<TokenDatatype>>::from_spec(
            <TokenDatatype as FromSpec<NameDatatype>>::from_spec(t),
        ) == <StringDatatype as FromSpec<NameDatatype>>::from_spec(t),
        <Datatype as FromSpec<TokenDatatype>>::from_spec(
            <TokenDatatype as FromSpec<NameDatatype>>::from_spec(t),
        ) == <Datatype as FromSpec<NameDatatype>>::from_spec(t),
        <StringDatatype as FromSpec<NormalizedStringDatatype>>::from_spec(
            <NormalizedStringDatatype as FromSpec<NameDatatype>>::from_spec(t),
        ) == <StringDatatype as FromSpec<NameDatatype>>::from_spec(t),
        <Datatype as FromSpec<NormalizedStringDatatype>>::from_spec(
            <NormalizedStringDatatype as FromSpec<NameDatatype>>::from_spec(t),
        ) == <Datatype as FromSpec<NameDatatype>>::from_spec(t),
        <Datatype as FromSpec<StringDatatype>>::from_spec(
            <StringDatatype as FromSpec<NameDatatype>>::from_spec(t),
        ) == <Datatype as FromSpec<NameDatatype>>::from_spec(t),
{
}

/// Embedding a datatype derived from `xsd:NCName` by way of a step above it gives what
/// embedding it at once gives.
pub proof fn lemma_nc_name_embeddings_compose(t: NCNameDatatype)
    ensures
        <TokenDatatype as FromSpec<NameDatatype>>::from_spec(
            <NameDatatype as FromSpec<NCNameDatatype>>::from_spec(t),
        ) == <TokenDatatype as FromSpec<NCNameDatatype>>::from_spec(t),
        <NormalizedStringDatatype as FromSpec<NameDatatype>>::from_spec(
            <NameDatatype as FromSpec<NCNameDatatype>>::from_spec(t),
        ) == <NormalizedStringDatatype as FromSpec<NCNameDatatype>>::from_spec(t),
        <StringDatatype as FromSpec<NameDatatype>>::from_spec(
            <NameDatatype as FromSpec<NCNameDatatype>>::from_spec(t),
        ) == <StringDatatype as FromSpec<NCNameDatatype>>::from_spec(t),
        <Datatype as FromSpec<NameDatatype>>::from_spec(
            <NameDatatype as FromSpec<NCNameDatatype>>::from_spec(t),
        ) == <Datatype as FromSpec<NCNameDatatype>>::from_spec(t),
        <NormalizedStringDatatype as FromSpec<TokenDatatype>>::from_spec(
            <TokenDatatype as FromSpec<NCNameDatatype>>::from_spec(t),
        ) == <NormalizedStringDatatype as FromSpec<NCNameDatatype>>::from_spec(t),
        <StringDatatype as FromSpec<TokenDatatype>>::from_spec(
            <TokenDatatype as FromSpec<NCNameDatatype>>::from_spec(t),
        ) == <StringDatatype as FromSpec<NCNameDatatype>>::from_spec(t),
        <Datatype as FromSpec<TokenDatatype>>::from_spec(
            <TokenDatatype as FromSpec<NCNameDatatype>>::from_spec(t),
        ) == <Datatype as FromSpec<NCNameDatatype>>::from_spec(t),
        <StringDatatype as FromSpec<NormalizedStringDatatype>>::from_spec(
            <NormalizedStringDatatype as FromSpec<NCNameDatatype>>::from_spec(t),
        ) == <StringDatatype as FromSpec<NCNameDatatype>>::from_spec(t),
        <Datatype as FromSpec<NormalizedStringDatatype>>::from_spec(
            <NormalizedStringDatatype as FromSpec<NCNameDatatype>>::from_spec(t),
        ) == <Datatype as FromSpec<NCNameDatatype>>::from_spec(t),
        <Datatype as FromSpec<StringDatatype>>::from_spec(
            <StringDatatype as FromSpec<NCNameDatatype>>::from_spec(t),
        ) == <Datatype as FromSpec<NCNameDatatype>>::from_spec(t),
{
}

/// Embedding a datatype derived from `xsd:integer` by way of a step above it gives what
/// embedding it at once gives.
pub proof fn lemma_integer_embeddings_compose(t: IntegerDatatype)
    ensures
        <Datatype as FromSpec<DecimalDatatype>>::from_spec(
            <DecimalDatatype as FromSpec<IntegerDatatype>>::from_spec(t),
        ) == <Datatype as FromSpec<IntegerDatatype>>::from_spec(t),
{
}

/// Embedding a datatype derived from `xsd:nonPositiveInteger` by way of a step above it gives what
/// embedding it at once gives.
pub proof fn lemma_non_positive_integer_embeddings_compose(t: NonPositiveIntegerDatatype)
    ensures
        <DecimalDatatype as FromSpec<IntegerDatatype>>::from_spec(
            <IntegerDatatype as FromSpec<NonPositiveIntegerDatatype>>::from_spec(t),
        ) == <DecimalDatatype as FromSpec<NonPositiveIntegerDatatype>>::from_spec(t),
        <Datatype as FromSpec<IntegerDatatype>>::from_spec(
            <IntegerDatatype as FromSpec<NonPositiveIntegerDatatype>>::from_spec(t),
        ) == <Datatype as FromSpec<NonPositiveIntegerDatatype>>::from_spec(t),
        <Datatype as FromSpec<DecimalDatatype>>::from_spec(
            <DecimalDatatype as FromSpec<NonPositiveIntegerDatatype>>::from_spec(t),
        ) == <Datatype as FromSpec<NonPositiveIntegerDatatype>>::from_spec(t),
{
}

/// Embedding a datatype derived from `xsd:long` by way of a step above it gives what
/// embedding it at once gives.
pub proof fn lemma_long_embeddings_compose(t: LongDatatype)
    ensures
        <DecimalDatatype as FromSpec<IntegerDatatype>>::from_spec(
            <IntegerDatatype as FromSpec<LongDatatype>>::from_spec(t),
        ) == <DecimalDatatype as FromSpec<LongDatatype>>::from_spec(t),
        <Datatype as FromSpec<IntegerDatatype>>::from_spec(
            <IntegerDatatype as FromSpec<LongDatatype>>::from_spec(t),
        ) == <Datatype as FromSpec<LongDatatype>>::from_spec(t),
        <Datatype as FromSpec<DecimalDatatype>>::from_spec(
            <DecimalDatatype as FromSpec<LongDatatype>>::from_spec(t),
        ) == <Datatype as FromSpec<LongDatatype>>::from_spec(t),
{
}

/// Embedding a datatype derived from `xsd:int` by way of a step above it gives what
/// embedding it at once gives.
pub proof fn lemma_int_embeddings_compose(t: IntDatatype)
    ensures
        <IntegerDatatype as FromSpec<LongDatatype>>::from_spec(
            <LongDatatype as FromSpec<IntDatatype>>::from_spec(t),
        ) == <IntegerDatatype as FromSpec<IntDatatype>>::from_spec(t),
        <DecimalDatatype as FromSpec<LongDatatype>>::from_spec(
            <LongDatatype as FromSpec<IntDatatype>>::from_spec(t),
        ) == <DecimalDatatype as FromSpec<IntDatatype>>::from_spec(t),
        <Datatype as FromSpec<LongDatatype>>::from_spec(
            <LongDatatype as FromSpec<IntDatatype>>::from_spec(t),
        ) == <Datatype as FromSpec<IntDatatype>>::from_spec(t),
        <DecimalDatatype as FromSpec<IntegerDatatype>>::from_spec(
            <IntegerDatatype as FromSpec<IntDatatype>>::from_spec(t),
        ) == <DecimalDatatype as FromSpec<IntDatatype>>::from_spec(t),
        <Datatype as FromSpec<IntegerDatatype>>::from_spec(
            <IntegerDatatype as FromSpec<IntDatatype>>::from_spec(t),
        ) == <Datatype as FromSpec<IntDatatype>>::from_spec(t),
        <Datatype as FromSpec<DecimalDatatype>>::from_spec(
            <DecimalDatatype as FromSpec<IntDatatype>>::from_spec(t),
        ) == <Datatype as FromSpec<IntDatatype>>::from_spec(t),
{
}

/// Embedding a datatype derived from `xsd:short` by way of a step above it gives what
/// embedding it at once gives.
pub proof fn lemma_short_embeddings_compose(t: ShortDatatype)
    ensures
        <LongDatatype as FromSpec<IntDatatype>>::from_spec(
            <IntDatatype as FromSpec<ShortDatatype>>::from_spec(t),
        ) == <LongDatatype as FromSpec<ShortDatatype>>::from_spec(t),
        <IntegerDatatype as FromSpec<IntDatatype>>::from_spec(
            <IntDatatype as FromSpec<ShortDatatype>>::from_spec(t),
        ) == <IntegerDatatype as FromSpec<ShortDatatype>>::from_spec(t),
        <DecimalDatatype as FromSpec<IntDatatype>>::from_spec(
            <IntDatatype as FromSpec<ShortDatatype>>::from_spec(t),
        ) == <DecimalDatatype as FromSpec<ShortDatatype>>::from_spec(t),
        <Datatype as FromSpec<IntDatatype>>::from_spec(
            <IntDatatype as FromSpec<ShortDatatype>>::from_spec(t),
        ) == <Datatype as FromSpec<ShortDatatype>>::from_spec(t),
        <IntegerDatatype as FromSpec<LongDatatype>>::from_spec(
            <LongDatatype as FromSpec<ShortDatatype>>::from_spec(t),
        ) == <IntegerDatatype as FromSpec<ShortDatatype>>::from_spec(t),
        <DecimalDatatype as FromSpec<LongDatatype>>::from_spec(
            <LongDatatype as FromSpec<ShortDatatype>>::from_spec(t),
        ) == <DecimalDatatype as FromSpec<ShortDatatype>>::from_spec(t),
        <Datatype as FromSpec<LongDatatype>>::from_spec(
            <LongDatatype as FromSpec<ShortDatatype>>::from_spec(t),
        ) == <Datatype as FromSpec<ShortDatatype>>::from_spec(t),
        <DecimalDatatype as FromSpec<IntegerDatatype>>::from_spec(
            <IntegerDatatype as FromSpec<ShortDatatype>>::from_spec(t),
        ) == <DecimalDatatype as FromSpec<ShortDatatype>>::from_spec(t),
        <Datatype as FromSpec<IntegerDatatype>>::from_spec(
            <IntegerDatatype as FromSpec<ShortDatatype>>::from_spec(t),
        ) == <Datatype as FromSpec<ShortDatatype>>::from_spec(t),
        <Datatype as FromSpec<DecimalDatatype>>::from_spec(
            <DecimalDatatype as FromSpec<ShortDatatype>>::from_spec(t),
        ) == <Datatype as FromSpec<ShortDatatype>>::from_spec(t),
{
}

/// Embedding a datatype derived from `xsd:nonNegativeInteger` by way of a step above it gives what
/// embedding it at once gives.
pub proof fn lemma_non_negative_integer_embeddings_compose(t: NonNegativeIntegerDatatype)
    ensures
        <DecimalDatatype as FromSpec<IntegerDatatype>>::from_spec(
            <IntegerDatatype as FromSpec<NonNegativeIntegerDatatype>>::from_spec(t),
        ) == <DecimalDatatype as FromSpec<NonNegativeIntegerDatatype>>::from_spec(t),
        <Datatype as FromSpec<IntegerDatatype>>::from_spec(
            <IntegerDatatype as FromSpec<NonNegativeIntegerDatatype>>::from_spec(t),
        ) == <Datatype as FromSpec<NonNegativeIntegerDatatype>>::from_spec(t),
        <Datatype as FromSpec<DecimalDatatype>>::from_spec(
            <DecimalDatatype as FromSpec<NonNegativeIntegerDatatype>>::from_spec(t),
        ) == <Datatype as FromSpec<NonNegativeIntegerDatatype>>::from_spec(t),
{
}

/// Embedding a datatype derived from `xsd:unsignedLong` by way of a step above it gives what
/// embedding it at once gives.
pub proof fn lemma_unsigned_long_embeddings_compose(t: UnsignedLongDatatype)
    ensures
        <IntegerDatatype as FromSpec<NonNegativeIntegerDatatype>>::from_spec(
            <NonNegativeIntegerDatatype as FromSpec<UnsignedLongDatatype>>::from_spec(t),
        ) == <IntegerDatatype as FromSpec<UnsignedLongDatatype>>::from_spec(t),
        <DecimalDatatype as FromSpec<NonNegativeIntegerDatatype>>::from_spec(
            <NonNegativeIntegerDatatype as FromSpec<UnsignedLongDatatype>>::from_spec(t),
        ) == <DecimalDatatype as FromSpec<UnsignedLongDatatype>>::from_spec(t),
        <Datatype as FromSpec<NonNegativeIntegerDatatype>>::from_spec(
            <NonNegativeIntegerDatatype as FromSpec<UnsignedLongDatatype>>::from_spec(t),
        ) == <Datatype as FromSpec<UnsignedLongDatatype>>::from_spec(t),
        <DecimalDatatype as FromSpec<IntegerDatatype>>::from_spec(
            <IntegerDatatype as FromSpec<UnsignedLongDatatype>>::from_spec(t),
        ) == <DecimalDatatype as FromSpec<UnsignedLongDatatype>>::from_spec(t),
        <Datatype as FromSpec<IntegerDatatype>>::from_spec(
            <IntegerDatatype as FromSpec<UnsignedLongDatatype>>::from_spec(t),
        ) == <Datatype as FromSpec<UnsignedLongDatatype>>::from_spec(t),
        <Datatype as FromSpec<DecimalDatatype>>::from_spec(
            <DecimalDatatype as FromSpec<UnsignedLongDatatype>>::from_spec(t),
        ) == <Datatype as FromSpec<UnsignedLongDatatype>>::from_spec(t),
{
}

/// Embedding a datatype derived from `xsd:unsignedInt` by way of a step above it gives what
/// embedding it at once gives.
pub proof fn lemma_unsigned_int_embeddings_compose(t: UnsignedIntDatatype)
    ensures
        <NonNegativeIntegerDatatype as FromSpec<UnsignedLongDatatype>>::from_spec(
            <UnsignedLongDatatype as FromSpec<UnsignedIntDatatype>>::from_spec(t),
        ) == <NonNegativeIntegerDatatype as FromSpec<UnsignedIntDatatype>>::from_spec(t),
        <IntegerDatatype as FromSpec<UnsignedLongDatatype>>::from_spec(
            <UnsignedLongDatatype as FromSpec<UnsignedIntDatatype>>::from_spec(t),
        ) == <IntegerDatatype as FromSpec<UnsignedIntDatatype>>::from_spec(t),
        <DecimalDatatype as FromSpec<UnsignedLongDatatype>>::from_spec(
            <UnsignedLongDatatype as FromSpec<UnsignedIntDatatype>>::from_spec(t),
        ) == <DecimalDatatype as FromSpec<UnsignedIntDatatype>>::from_spec(t),
        <Datatype as FromSpec<UnsignedLongDatatype>>::from_spec(
            <UnsignedLongDatatype as FromSpec<UnsignedIntDatatype>>::from_spec(t),
        ) == <Datatype as FromSpec<UnsignedIntDatatype>>::from_spec(t),
        <IntegerDatatype as FromSpec<NonNegativeIntegerDatatype>>::from_spec(
            <NonNegativeIntegerDatatype as FromSpec<UnsignedIntDatatype>>::from_spec(t),
        ) == <IntegerDatatype as FromSpec<UnsignedIntDatatype>>::from_spec(t),
        <DecimalDatatype as FromSpec<NonNegativeIntegerDatatype>>::from_spec(
            <NonNegativeIntegerDatatype as FromSpec<UnsignedIntDatatype>>::from_spec(t),
        ) == <DecimalDatatype as FromSpec<UnsignedIntDatatype>>::from_spec(t),
        <Datatype as FromSpec<NonNegativeIntegerDatatype>>::from_spec(
            <NonNegativeIntegerDatatype as FromSpec<UnsignedIntDatatype>>::from_spec(t),
        ) == <Datatype as FromSpec<UnsignedIntDatatype>>::from_spec(t),
        <DecimalDatatype as FromSpec<IntegerDatatype>>::from_spec(
            <IntegerDatatype as FromSpec<UnsignedIntDatatype>>::from_spec(t),
        ) == <DecimalDatatype as FromSpec<UnsignedIntDatatype>>::from_spec(t),
        <Datatype as FromSpec<IntegerDatatype>>::from_spec(
            <IntegerDatatype as FromSpec<UnsignedIntDatatype>>::from_spec(t),
        ) == <Datatype as FromSpec<UnsignedIntDatatype>>::from_spec(t),
        <Datatype as FromSpec<DecimalDatatype>>::from_spec(
            <DecimalDatatype as FromSpec<UnsignedIntDatatype>>::from_spec(t),
        ) == <Datatype as FromSpec<UnsignedIntDatatype>>::from_spec(t),
{
}

/// Embedding a datatype derived from `xsd:unsignedShort` by way of a step above it gives what
/// embedding it at once gives.
pub proof fn lemma_unsigned_short_embeddings_compose(t: UnsignedShortDatatype)
    ensures
        <UnsignedLongDatatype as FromSpec<UnsignedIntDatatype>>::from_spec(
            <UnsignedIntDatatype as FromSpec<UnsignedShortDatatype>>::from_spec(t),
        ) == <UnsignedLongDatatype as FromSpec<UnsignedShortDatatype>>::from_spec(t),
        <NonNegativeIntegerDatatype as FromSpec<UnsignedIntDatatype>>::from_spec(
            <UnsignedIntDatatype as FromSpec<UnsignedShortDatatype>>::from_spec(t),
        ) == <NonNegativeIntegerDatatype as FromSpec<UnsignedShortDatatype>>::from_spec(t),
        <IntegerDatatype as FromSpec<UnsignedIntDatatype>>::from_spec(
            <UnsignedIntDatatype as FromSpec<UnsignedShortDatatype>>::from_spec(t),
        ) == <IntegerDatatype as FromSpec<UnsignedShortDatatype>>::from_spec(t),
        <DecimalDatatype as FromSpec<UnsignedIntDatatype>>::from_spec(
            <UnsignedIntDatatype as FromSpec<UnsignedShortDatatype>>::from_spec(t),
        ) == <DecimalDatatype as FromSpec<UnsignedShortDatatype>>::from_spec(t),
        <Datatype as FromSpec<UnsignedIntDatatype>>::from_spec(
            <UnsignedIntDatatype as FromSpec<UnsignedShortDatatype>>::from_spec(t),
        ) == <Datatype as FromSpec<UnsignedShortDatatype>>::from_spec(t),
        <NonNegativeIntegerDatatype as FromSpec<UnsignedLongDatatype>>::from_spec(
            <UnsignedLongDatatype as FromSpec<UnsignedShortDatatype>>::from_spec(t),
        ) == <NonNegativeIntegerDatatype as FromSpec<UnsignedShortDatatype>>::from_spec(t),
        <IntegerDatatype as FromSpec<UnsignedLongDatatype>>::from_spec(
            <UnsignedLongDatatype as FromSpec<UnsignedShortDatatype>>::from_spec(t),
        ) == <IntegerDatatype as FromSpec<UnsignedShortDatatype>>::from_spec(t),
        <DecimalDatatype as FromSpec<UnsignedLongDatatype>>::from_spec(
            <UnsignedLongDatatype as FromSpec<UnsignedShortDatatype>>::from_spec(t),
        ) == <DecimalDatatype as FromSpec<UnsignedShortDatatype>>::from_spec(t),
        <Datatype as FromSpec<UnsignedLongDatatype>>::from_spec(
            <UnsignedLongDatatype as FromSpec<UnsignedShortDatatype>>::from_spec(t),
        ) == <Datatype as FromSpec<UnsignedShortDatatype>>::from_spec(t),
        <IntegerDatatype as FromSpec<NonNegativeIntegerDatatype>>::from_spec(
            <NonNegativeIntegerDatatype as FromSpec<UnsignedShortDatatype>>::from_spec(t),
        ) == <IntegerDatatype as FromSpec<UnsignedShortDatatype>>::from_spec(t),
        <DecimalDatatype as FromSpec<NonNegativeIntegerDatatype>>::from_spec(
            <NonNegativeIntegerDatatype as FromSpec<UnsignedShortDatatype>>::from_spec(t),
        ) == <DecimalDatatype as FromSpec<UnsignedShortDatatype>>::from_spec(t),
        <Datatype as FromSpec<NonNegativeIntegerDatatype>>::from_spec(
            <NonNegativeIntegerDatatype as FromSpec<UnsignedShortDatatype>>::from_spec(t),
        ) == <Datatype as FromSpec<UnsignedShortDatatype>>::from_spec(t),
        <DecimalDatatype as FromSpec<IntegerDatatype>>::from_spec(
            <IntegerDatatype as FromSpec<UnsignedShortDatatype>>::from_spec(t),
        ) == <DecimalDatatype as FromSpec<UnsignedShortDatatype>>::from_spec(t),
        <Datatype as FromSpec<IntegerDatatype>>::from_spec(
            <IntegerDatatype as FromSpec<UnsignedShortDatatype>>::from_spec(t),
        ) == <Datatype as FromSpec<UnsignedShortDatatype>>::from_spec(t),
        <Datatype as FromSpec<DecimalDatatype>>::from_spec(
            <DecimalDatatype as FromSpec<UnsignedShortDatatype>>::from_spec(t),
        ) == <Datatype as FromSpec<UnsignedShortDatatype>>::from_spec(t),
{
}

} // verus!
