//! GATT characteristics and their classification by capability.

use uuid::Uuid;
use vstd::prelude::*;

verus! {

/// `uuid::Uuid`: a 128-bit identifier. The library carries such values
/// through and never looks inside one.
#[verifier::external_type_specification]
#[verifier::external_body]
pub struct ExUuid(uuid::Uuid);

/// Property bit of a characteristic whose value can be read.
pub const PROPERTY_READ: u8 = 0x02;

/// Property bit of a characteristic that accepts writes without response.
pub const PROPERTY_WRITE_WITHOUT_RESPONSE: u8 = 0x04;

/// Property bit of a characteristic that sends notifications.
pub const PROPERTY_NOTIFY: u8 = 0x10;

/// A capability by which characteristics are classified. One characteristic
/// may have several.
#[derive(Copy, Clone, Debug, PartialEq, Eq, Structural)]
pub enum CharacteristicRole {
    Readable,
    WritableNoResponse,
    Notifying,
}

impl CharacteristicRole {
    /// The property bit that declares the capability.
    pub open spec fn spec_mask(self) -> u8 {
        match self {
            CharacteristicRole::Readable => PROPERTY_READ,
            CharacteristicRole::WritableNoResponse => PROPERTY_WRITE_WITHOUT_RESPONSE,
            CharacteristicRole::Notifying => PROPERTY_NOTIFY,
        }
    }

    /// Returns the property bit that declares the capability.
    #[verifier::when_used_as_spec(spec_mask)]
    pub fn mask(self) -> (m: u8)
        ensures
            m == self.spec_mask(),
    {
        match self {
            CharacteristicRole::Readable => PROPERTY_READ,
            CharacteristicRole::WritableNoResponse => PROPERTY_WRITE_WITHOUT_RESPONSE,
            CharacteristicRole::Notifying => PROPERTY_NOTIFY,
        }
    }
}

/// What the library knows of one characteristic of a connected peripheral.
#[derive(Copy, Clone, Debug, PartialEq, Eq)]
pub struct CharacteristicDescriptor {
    /// The characteristic's own identifier.
    pub uuid: Uuid,
    /// The identifier of the service it belongs to.
    pub service_uuid: Uuid,
    /// The declared property flags, one bit for each.
    pub properties: u8,
}

impl CharacteristicDescriptor {
    /// Whether the declared property flags include the capability.
    pub open spec fn spec_has_role(&self, role: CharacteristicRole) -> bool {
        self.properties & role.spec_mask() == role.spec_mask()
    }

    /// Tells whether the declared property flags include the capability.
    #[verifier::when_used_as_spec(spec_has_role)]
    pub fn has_role(&self, role: CharacteristicRole) -> (b: bool)
        ensures
            b == self.spec_has_role(role),
    {
        let m: u8 = role.mask();
        self.properties & m == m
    }
}

/// The characteristics of `chars` that have the capability `role`, in the
/// order of `chars`.
pub open spec fn with_role(
    chars: Seq<CharacteristicDescriptor>,
    role: CharacteristicRole,
) -> Seq<CharacteristicDescriptor> {
    chars.filter(|c: CharacteristicDescriptor| c.spec_has_role(role))
}

/// The characteristics of a peripheral, by capability.
#[derive(Debug, PartialEq, Eq)]
pub struct ClassifiedCharacteristics {
    /// Those that can be read.
    pub readable: Vec<CharacteristicDescriptor>,
    /// Those that accept writes without response: the targets of commands.
    pub writable: Vec<CharacteristicDescriptor>,
    /// Those that send notifications.
    pub notifying: Vec<CharacteristicDescriptor>,
}

impl ClassifiedCharacteristics {
    /// Whether the three lists are the classification of `chars`.
    pub open spec fn classifies(self, chars: Seq<CharacteristicDescriptor>) -> bool {
        &&& self.readable@ == with_role(chars, CharacteristicRole::Readable)
        &&& self.writable@ == with_role(chars, CharacteristicRole::WritableNoResponse)
        &&& self.notifying@ == with_role(chars, CharacteristicRole::Notifying)
    }

    /// Whether every characteristic in a list has the capability of that
    /// list.
    pub open spec fn well_sorted(self) -> bool {
        &&& forall|i: int|
            0 <= i < self.readable@.len() ==> (#[trigger] self.readable@[i]).spec_has_role(
                CharacteristicRole::Readable,
            )
        &&& forall|i: int|
            0 <= i < self.writable@.len() ==> (#[trigger] self.writable@[i]).spec_has_role(
                CharacteristicRole::WritableNoResponse,
            )
        &&& forall|i: int|
            0 <= i < self.notifying@.len() ==> (#[trigger] self.notifying@[i]).spec_has_role(
                CharacteristicRole::Notifying,
            )
    }

    /// Whether the three lists are empty.
    pub open spec fn is_empty(self) -> bool {
        &&& self.readable@.len() == 0
        &&& self.writable@.len() == 0
        &&& self.notifying@.len() == 0
    }

    /// Returns a classification with three empty lists.
    pub fn empty() -> (out: ClassifiedCharacteristics)
        ensures
            out.is_empty(),
            out.well_sorted(),
    {
        ClassifiedCharacteristics {
            readable: Vec::new(),
            writable: Vec::new(),
            notifying: Vec::new(),
        }
    }
}

/// Extending a sequence by one element extends its members with a role by
/// that element if it has the role, and leaves them as they are otherwise.
proof fn lemma_with_role_push(
    chars: Seq<CharacteristicDescriptor>,
    c: CharacteristicDescriptor,
    role: CharacteristicRole,
)
    ensures
        with_role(chars.push(c), role) == if c.spec_has_role(role) {
            with_role(chars, role).push(c)
        } else {
            with_role(chars, role)
        },
{
    reveal(Seq::filter);
    assert(chars.push(c).drop_last() == chars);
}

/// Sorts the characteristics of a peripheral by capability. Each list holds
/// the characteristics whose property flags include the capability, in the
/// order of `chars`; a characteristic with several capabilities is in several
/// lists.
pub fn classify(chars: &Vec<CharacteristicDescriptor>) -> (out: ClassifiedCharacteristics)
    ensures
        out.classifies(chars@),
        out.well_sorted(),
{
    let mut out = ClassifiedCharacteristics::empty();
    let mut i: usize = 0;
    proof {
        reveal(Seq::filter);
        let none = chars@.take(0);
        assert(out.readable@ =~= with_role(none, CharacteristicRole::Readable));
        assert(out.writable@ =~= with_role(none, CharacteristicRole::WritableNoResponse));
        assert(out.notifying@ =~= with_role(none, CharacteristicRole::Notifying));
    }
    while i < chars.len()
        invariant
            i <= chars.len(),
            out.classifies(chars@.take(i as int)),
        decreases chars.len() - i,
    {
        let c: CharacteristicDescriptor = chars[i];
        proof {
            assert(chars@.take(i + 1) == chars@.take(i as int).push(c));
            lemma_with_role_push(chars@.take(i as int), c, CharacteristicRole::Readable);
            lemma_with_role_push(chars@.take(i as int), c, CharacteristicRole::WritableNoResponse);
            lemma_with_role_push(chars@.take(i as int), c, CharacteristicRole::Notifying);
        }
        if c.has_role(CharacteristicRole::Readable) {
            out.readable.push(c);
        }
        if c.has_role(CharacteristicRole::WritableNoResponse) {
            out.writable.push(c);
        }
        if c.has_role(CharacteristicRole::Notifying) {
            out.notifying.push(c);
        }
        i += 1;
    }
    proof {
        assert(chars@.take(chars.len() as int) == chars@);
        lemma_classification_is_well_sorted(out, chars@);
    }
    out
}

/// A characteristic is among those with a role exactly if it is among the
/// classified characteristics and its property flags include the
/// capability.
pub proof fn lemma_classification_is_exact(
    chars: Seq<CharacteristicDescriptor>,
    role: CharacteristicRole,
    c: CharacteristicDescriptor,
)
    ensures
        with_role(chars, role).contains(c) <==> chars.contains(c) && c.spec_has_role(role),
{
    let has = |x: CharacteristicDescriptor| x.spec_has_role(role);
    if with_role(chars, role).contains(c) {
        chars.lemma_filter_contains_rev(has, c);
    }
    if chars.contains(c) && c.spec_has_role(role) {
        let i = choose|i: int| 0 <= i < chars.len() && chars[i] == c;
        chars.lemma_filter_contains(has, i);
    }
}

/// In a classification, every characteristic in a list has the capability of
/// that list.
pub proof fn lemma_classification_is_well_sorted(
    out: ClassifiedCharacteristics,
    chars: Seq<CharacteristicDescriptor>,
)
    requires
        out.classifies(chars),
    ensures
        out.well_sorted(),
{
    assert forall|i: int| 0 <= i < out.readable@.len() implies (#[trigger] out.readable@[i])
        .spec_has_role(CharacteristicRole::Readable) by {
        lemma_classification_is_exact(chars, CharacteristicRole::Readable, out.readable@[i]);
    }
    assert forall|i: int| 0 <= i < out.writable@.len() implies (#[trigger] out.writable@[i])
        .spec_has_role(CharacteristicRole::WritableNoResponse) by {
        lemma_classification_is_exact(
            chars,
            CharacteristicRole::WritableNoResponse,
            out.writable@[i],
        );
    }
    assert forall|i: int| 0 <= i < out.notifying@.len() implies (#[trigger] out.notifying@[i])
        .spec_has_role(CharacteristicRole::Notifying) by {
        lemma_classification_is_exact(chars, CharacteristicRole::Notifying, out.notifying@[i]);
    }
}

/// Whatever the three lists of a classification hold comes from the
/// classified characteristics.
pub proof fn lemma_classified_within_input(
    out: ClassifiedCharacteristics,
    chars: Seq<CharacteristicDescriptor>,
)
    requires
        out.classifies(chars),
    ensures
        (out.readable@.to_set() + out.writable@.to_set() + out.notifying@.to_set()).subset_of(
            chars.to_set(),
        ),
{
    assert forall|c: CharacteristicDescriptor|
        (out.readable@.to_set() + out.writable@.to_set() + out.notifying@.to_set()).contains(
            c,
        ) implies chars.to_set().contains(c) by {
        lemma_classification_is_exact(chars, CharacteristicRole::Readable, c);
        lemma_classification_is_exact(chars, CharacteristicRole::WritableNoResponse, c);
        lemma_classification_is_exact(chars, CharacteristicRole::Notifying, c);
    }
}

} // verus!
