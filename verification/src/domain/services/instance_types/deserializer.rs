//! From the products of a pricing list to the instance types of the catalog.

use crate::domain::model::instance_type::{InstanceType, InstanceTypeView};
use crate::utils::parsers::decimal;
use crate::utils::parsers::memory;
use crate::utils::parsers::text;
use vstd::prelude::*;

verus! {

pub const INSTANCE_TYPE_ATTR: &'static str = "instanceType";

pub const INSTANCE_FAMILY_ATTR: &'static str = "instanceFamily";

pub const MEMORY_ATTR: &'static str = "memory";

pub const VCPU_ATTR: &'static str = "vcpu";

pub const GPU_ATTR: &'static str = "gpu";

pub const OPERATING_SYSTEM_ATTR: &'static str = "operatingSystem";

pub const OPERATING_SYSTEM_LINUX: &'static str = "Linux";

/// The family of an instance type whose product names none.
pub const UNKNOWN_FAMILY: &'static str = "Unknown";

/// One product of a pricing list before any check: its attributes as pairs
/// of a name and a value. Where a name is given more than once, the last
/// pair counts.
#[derive(Clone, Debug, PartialEq, Eq)]
pub struct RawProduct {
    pub attributes: Vec<(String, String)>,
}

/// The attributes of a product as characters.
pub type Attributes = Seq<(Seq<char>, Seq<char>)>;

impl View for RawProduct {
    type V = Attributes;

    open spec fn view(&self) -> Attributes {
        self.attributes@.map_values(|pair: (String, String)| (pair.0@, pair.1@))
    }
}

/// The products of a list as characters.
pub open spec fn products_view(products: Seq<RawProduct>) -> Seq<Attributes> {
    products.map_values(|product: RawProduct| product@)
}

/// The value of the attribute `key`, if the product has it.
pub open spec fn attribute(attributes: Attributes, key: Seq<char>) -> Option<Seq<char>>
    decreases attributes.len(),
{
    if attributes.len() == 0 {
        None
    } else if attributes.last().0 == key {
        Some(attributes.last().1)
    } else {
        attribute(attributes.drop_last(), key)
    }
}

/// The bytes that a `memory` attribute stands for, if it is there and is a
/// memory quantity.
pub open spec fn memory_attribute(value: Option<Seq<char>>) -> Option<usize> {
    match value {
        Some(text) => match memory::memory_in_bytes(text) {
            Ok(bytes) => Some(bytes),
            Err(_) => None,
        },
        None => None,
    }
}

/// The count that a `vcpu` or `gpu` attribute stands for, if it is there and
/// is a whole number.
pub open spec fn count_attribute(value: Option<Seq<char>>) -> Option<usize> {
    match value {
        Some(text) => decimal::plain_integer(text),
        None => None,
    }
}

/// The instance type that a product describes, if it describes one.
///
/// It does where its operating system is exactly `Linux` and it has an
/// instance type name, a memory that is a memory quantity and a vcpu that is
/// a whole number. The family is `Unknown` where the product names none; the
/// gpu count is 0 where the product gives none that is a whole number.
pub open spec fn record_of(attributes: Attributes) -> Option<InstanceTypeView> {
    if attribute(attributes, OPERATING_SYSTEM_ATTR@) != Some(OPERATING_SYSTEM_LINUX@) {
        None
    } else {
        match (
            attribute(attributes, INSTANCE_TYPE_ATTR@),
            memory_attribute(attribute(attributes, MEMORY_ATTR@)),
            count_attribute(attribute(attributes, VCPU_ATTR@)),
        ) {
            (Some(name), Some(memory), Some(vcpu)) => Some(
                InstanceTypeView {
                    name,
                    family: match attribute(attributes, INSTANCE_FAMILY_ATTR@) {
                        Some(family) => family,
                        None => UNKNOWN_FAMILY@,
                    },
                    memory,
                    vcpu,
                    gpu: match count_attribute(attribute(attributes, GPU_ATTR@)) {
                        Some(gpu) => gpu,
                        None => 0,
                    },
                },
            ),
            _ => None,
        }
    }
}

/// Whether one of `records` has the name `name`.
pub open spec fn has_name(records: Seq<InstanceTypeView>, name: Seq<char>) -> bool {
    exists|i: int| 0 <= i < records.len() && (#[trigger] records[i]).name == name
}

/// The instance types that a list of products describes: one for each
/// product that describes one, in the order of the list, but for those whose
/// name an earlier one has taken.
pub open spec fn catalog_records(products: Seq<Attributes>) -> Seq<InstanceTypeView>
    decreases products.len(),
{
    if products.len() == 0 {
        Seq::empty()
    } else {
        let earlier = catalog_records(products.drop_last());
        match record_of(products.last()) {
            Some(record) => if has_name(earlier, record.name) {
                earlier
            } else {
                earlier.push(record)
            },
            None => earlier,
        }
    }
}

/// Whether the product at `k` describes an instance type of the name `name`.
pub open spec fn describes_name(products: Seq<Attributes>, k: int, name: Seq<char>) -> bool {
    record_of(products[k]) matches Some(record) && record.name == name
}

/// Whether the product at `k` describes an instance type and is the first
/// in the list to describe one of that name.
pub open spec fn first_of_name(products: Seq<Attributes>, k: int) -> bool {
    record_of(products[k]) matches Some(record) && forall|j: int|
        0 <= j < k ==> !#[trigger] describes_name(products, j, record.name)
}

/// No two of `records` have one name.
pub open spec fn distinct_record_names(records: Seq<InstanceTypeView>) -> bool {
    forall|i: int, j: int|
        0 <= i < j < records.len() ==> (#[trigger] records[i]).name != (#[trigger] records[j]).name
}

/// The names of the catalog are the names that the products describe.
pub proof fn lemma_catalog_names(products: Seq<Attributes>, name: Seq<char>)
    ensures
        has_name(catalog_records(products), name) <==> exists|k: int|
            0 <= k < products.len() && #[trigger] describes_name(products, k, name),
    decreases products.len(),
{
    if products.len() > 0 {
        let shorter = products.drop_last();
        let listed = catalog_records(products);
        let earlier = catalog_records(shorter);
        lemma_catalog_names(shorter, name);
        if has_name(listed, name) {
            let i = choose|i: int| 0 <= i < listed.len() && (#[trigger] listed[i]).name == name;
            if i < earlier.len() {
                assert(earlier[i] == listed[i]);
                let k = choose|k: int|
                    0 <= k < shorter.len() && #[trigger] describes_name(shorter, k, name);
                assert(shorter[k] == products[k]);
                assert(describes_name(products, k, name));
            } else {
                assert(describes_name(products, products.len() - 1, name));
            }
        }
        if exists|k: int| 0 <= k < products.len() && #[trigger] describes_name(products, k, name) {
            let k = choose|k: int|
                0 <= k < products.len() && #[trigger] describes_name(products, k, name);
            if k < shorter.len() {
                assert(shorter[k] == products[k]);
                assert(describes_name(shorter, k, name));
            }
            if has_name(earlier, name) {
                let i = choose|i: int|
                    0 <= i < earlier.len() && (#[trigger] earlier[i]).name == name;
                assert(listed[i] == earlier[i]);
            } else {
                assert(k == products.len() - 1);
                assert(listed[listed.len() - 1].name == name);
            }
        }
    }
}

/// Uniqueness of names: no two instance types of a catalog have one name,
/// whatever the products are.
pub proof fn lemma_catalog_names_distinct(products: Seq<Attributes>)
    ensures
        distinct_record_names(catalog_records(products)),
    decreases products.len(),
{
    if products.len() > 0 {
        let listed = catalog_records(products);
        let earlier = catalog_records(products.drop_last());
        lemma_catalog_names_distinct(products.drop_last());
        assert forall|i: int, j: int| 0 <= i < j < listed.len() implies (#[trigger] listed[i]).name
            != (#[trigger] listed[j]).name by {
            if j < earlier.len() {
                assert(listed[i] == earlier[i] && listed[j] == earlier[j]);
            } else {
                assert(listed[i] == earlier[i]);
            }
        }
    }
}

/// Every instance type of a catalog is what one product describes, and
/// that product is the first of the list to describe one of that name.
pub proof fn lemma_catalog_provenance(products: Seq<Attributes>, i: int)
    requires
        0 <= i < catalog_records(products).len(),
    ensures
        exists|k: int|
            0 <= k < products.len() && record_of(products[k]) == Some(
                catalog_records(products)[i],
            ) && #[trigger] first_of_name(products, k),
    decreases products.len(),
{
    let shorter = products.drop_last();
    let listed = catalog_records(products);
    let earlier = catalog_records(shorter);
    if i < earlier.len() {
        lemma_catalog_provenance(shorter, i);
        let k = choose|k: int|
            0 <= k < shorter.len() && record_of(shorter[k]) == Some(earlier[i])
                && #[trigger] first_of_name(shorter, k);
        assert(shorter[k] == products[k]);
        assert(listed[i] == earlier[i]);
        assert(record_of(shorter[k]) matches Some(record) && record == earlier[i]);
        assert forall|j: int| 0 <= j < k implies !#[trigger] describes_name(
            products,
            j,
            earlier[i].name,
        ) by {
            assert(shorter[j] == products[j]);
            assert(!describes_name(shorter, j, earlier[i].name));
        }
        assert(first_of_name(products, k));
    } else {
        let last = products.len() - 1;
        let record = record_of(products.last())->0;
        lemma_catalog_names(shorter, record.name);
        assert forall|j: int| 0 <= j < last implies !#[trigger] describes_name(
            products,
            j,
            record.name,
        ) by {
            assert(shorter[j] == products[j]);
            if describes_name(products, j, record.name) {
                assert(describes_name(shorter, j, record.name));
            }
        }
        assert(first_of_name(products, last));
    }
}

/// The first product to describe an instance type of some name puts its
/// record into the catalog.
pub proof fn lemma_first_product_is_listed(products: Seq<Attributes>, k: int)
    requires
        0 <= k < products.len(),
        first_of_name(products, k),
    ensures
        exists|i: int|
            0 <= i < catalog_records(products).len() && Some(
                #[trigger] catalog_records(products)[i],
            ) == record_of(products[k]),
    decreases products.len(),
{
    let shorter = products.drop_last();
    let listed = catalog_records(products);
    let earlier = catalog_records(shorter);
    let record = record_of(products[k])->0;
    if k < products.len() - 1 {
        assert(shorter[k] == products[k]);
        assert forall|j: int| 0 <= j < k implies !#[trigger] describes_name(
            shorter,
            j,
            record.name,
        ) by {
            assert(shorter[j] == products[j]);
            assert(!describes_name(products, j, record.name));
        }
        lemma_first_product_is_listed(shorter, k);
        let i = choose|i: int|
            0 <= i < earlier.len() && Some(#[trigger] earlier[i]) == record_of(shorter[k]);
        assert(listed[i] == earlier[i]);
    } else {
        lemma_catalog_names(shorter, record.name);
        if has_name(earlier, record.name) {
            let j = choose|j: int|
                0 <= j < shorter.len() && #[trigger] describes_name(shorter, j, record.name);
            assert(shorter[j] == products[j]);
            assert(describes_name(products, j, record.name));
        }
        assert(listed[listed.len() - 1] == record);
    }
}

/// Dedup: of two products that describe instance types of one name, only
/// the first-encountered survives. Where the product at `first` is the first
/// of its name and the one at `later` has the same name, the catalog has the
/// record of `first`, and every record of that name in the catalog is that
/// record.
pub proof fn lemma_first_product_wins(products: Seq<Attributes>, first: int, later: int)
    requires
        0 <= first < later < products.len(),
        first_of_name(products, first),
        describes_name(products, later, record_of(products[first])->0.name),
    ensures
        has_name(catalog_records(products), record_of(products[first])->0.name),
        forall|i: int|
            0 <= i < catalog_records(products).len() && (#[trigger] catalog_records(
                products,
            )[i]).name == record_of(products[first])->0.name ==> catalog_records(products)[i]
                == record_of(products[first])->0,
{
    let listed = catalog_records(products);
    let record = record_of(products[first])->0;
    lemma_first_product_is_listed(products, first);
    lemma_catalog_names_distinct(products);
    let at = choose|i: int| 0 <= i < listed.len() && Some(#[trigger] listed[i]) == record_of(
        products[first],
    );
    assert(listed[at].name == record.name);
    assert forall|i: int| 0 <= i < listed.len() && (#[trigger] listed[i]).name
        == record.name implies listed[i] == record by {
        if i < at {
            assert(listed[i].name != listed[at].name);
        } else if at < i {
            assert(listed[at].name != listed[i].name);
        }
    }
}

/// OS filter: a product whose operating system is not exactly `Linux`
/// describes no instance type, whatever its other attributes are.
pub proof fn lemma_other_systems_are_left_out(attributes: Attributes)
    requires
        attribute(attributes, OPERATING_SYSTEM_ATTR@) != Some(OPERATING_SYSTEM_LINUX@),
    ensures
        record_of(attributes) is None,
{
}

/// OS filter, of the catalog: every instance type of a catalog is described
/// by a product for `Linux`.
pub proof fn lemma_only_linux_is_listed(products: Seq<Attributes>, i: int)
    requires
        0 <= i < catalog_records(products).len(),
    ensures
        exists|k: int|
            0 <= k < products.len() && #[trigger] record_of(products[k]) == Some(
                catalog_records(products)[i],
            ) && attribute(products[k], OPERATING_SYSTEM_ATTR@) == Some(OPERATING_SYSTEM_LINUX@),
{
    lemma_catalog_provenance(products, i);
    let k = choose|k: int|
        0 <= k < products.len() && record_of(products[k]) == Some(catalog_records(products)[i])
            && #[trigger] first_of_name(products, k);
    assert(record_of(products[k]) is Some);
}

/// Required fields: a product without a name, without a memory that is a
/// memory quantity, or without a vcpu that is a whole number describes no
/// instance type, whatever its other attributes are.
pub proof fn lemma_required_attributes(attributes: Attributes)
    requires
        attribute(attributes, INSTANCE_TYPE_ATTR@) is None || memory_attribute(
            attribute(attributes, MEMORY_ATTR@),
        ) is None || count_attribute(attribute(attributes, VCPU_ATTR@)) is None,
    ensures
        record_of(attributes) is None,
{
}

/// Optional fields: a product for `Linux` with a name, a memory and a vcpu
/// describes an instance type whatever its gpu and its family are. Its gpu
/// count is 0 where the product gives none, or one that is no whole number;
/// its family is `Unknown` where the product gives none.
pub proof fn lemma_optional_attributes(attributes: Attributes)
    requires
        attribute(attributes, OPERATING_SYSTEM_ATTR@) == Some(OPERATING_SYSTEM_LINUX@),
        attribute(attributes, INSTANCE_TYPE_ATTR@) is Some,
        memory_attribute(attribute(attributes, MEMORY_ATTR@)) is Some,
        count_attribute(attribute(attributes, VCPU_ATTR@)) is Some,
    ensures
        record_of(attributes) matches Some(record) && {
            &&& record.name == attribute(attributes, INSTANCE_TYPE_ATTR@)->0
            &&& record.memory == memory_attribute(attribute(attributes, MEMORY_ATTR@))->0
            &&& record.vcpu == count_attribute(attribute(attributes, VCPU_ATTR@))->0
            &&& count_attribute(attribute(attributes, GPU_ATTR@)) is None ==> record.gpu == 0
            &&& attribute(attributes, INSTANCE_FAMILY_ATTR@) is None ==> record.family
                == UNKNOWN_FAMILY@
        },
{
}

/// What an optional record says.
pub open spec fn optional_record_view(record: Option<InstanceType>) -> Option<InstanceTypeView> {
    match record {
        Some(r) => Some(r@),
        None => None,
    }
}

/// What an optional text says.
pub open spec fn optional_text_view(found: Option<&String>) -> Option<Seq<char>> {
    match found {
        Some(value) => Some(value@),
        None => None,
    }
}

/// The value of the attribute `key` of a product.
pub fn find_attribute<'a>(product: &'a RawProduct, key: &str) -> (found: Option<&'a String>)
    ensures
        optional_text_view(found) == attribute(product@, key@),
{
    let mut i: usize = product.attributes.len();
    proof {
        assert(product@.take(i as int) =~= product@);
    }
    while i > 0
        invariant
            0 <= i <= product.attributes.len(),
            attribute(product@, key@) == attribute(product@.take(i as int), key@),
        decreases i,
    {
        let ghost shorter = product@.take(i as int);
        i = i - 1;
        proof {
            assert(shorter.drop_last() =~= product@.take(i as int));
            assert(shorter.last() == product@[i as int]);
            assert(product@[i as int] == (product.attributes@[i as int].0@, product.attributes@[i as int].1@));
        }
        if text::same_text(product.attributes[i].0.as_str(), key) {
            return Some(&product.attributes[i].1);
        }
    }
    proof {
        assert(product@.take(0).len() == 0);
    }
    None
}

/// The memory of a product in bytes, see [`memory_attribute`].
fn memory_of(value: Option<&String>) -> (bytes: Option<usize>)
    ensures
        bytes == memory_attribute(optional_text_view(value)),
{
    match value {
        Some(text) => match memory::parse_memory_in_bytes(text.as_str()) {
            Ok(bytes) => Some(bytes),
            Err(_) => None,
        },
        None => None,
    }
}

/// A count of a product, see [`count_attribute`].
fn count_of(value: Option<&String>) -> (count: Option<usize>)
    ensures
        count == count_attribute(optional_text_view(value)),
{
    match value {
        Some(text) => decimal::parse_plain_integer(text.as_str()),
        None => None,
    }
}

/// The instance type that a product describes, see [`record_of`].
pub fn parse_product(product: &RawProduct) -> (record: Option<InstanceType>)
    ensures
        optional_record_view(record) == record_of(product@),
{
    let linux = match find_attribute(product, OPERATING_SYSTEM_ATTR) {
        Some(system) => text::same_text(system.as_str(), OPERATING_SYSTEM_LINUX),
        None => false,
    };
    if !linux {
        return None;
    }
    let maybe_name = find_attribute(product, INSTANCE_TYPE_ATTR);
    let family = match find_attribute(product, INSTANCE_FAMILY_ATTR) {
        Some(family) => family.clone(),
        None => String::from_str(UNKNOWN_FAMILY),
    };
    let maybe_memory = memory_of(find_attribute(product, MEMORY_ATTR));
    let maybe_vcpu = count_of(find_attribute(product, VCPU_ATTR));
    let gpu = match count_of(find_attribute(product, GPU_ATTR)) {
        Some(gpu) => gpu,
        None => 0,
    };
    match (maybe_name, maybe_memory, maybe_vcpu) {
        (Some(name), Some(memory), Some(vcpu)) => Some(
            InstanceType { name: name.clone(), family, memory, vcpu, gpu },
        ),
        _ => None,
    }
}

/// Whether one of `records` has the name `name`, see [`has_name`].
fn contains_name(records: &Vec<InstanceType>, name: &String) -> (found: bool)
    ensures
        found == has_name(crate::domain::model::instance_type::records_view(records@), name@),
{
    let ghost views = crate::domain::model::instance_type::records_view(records@);
    let mut i: usize = 0;
    while i < records.len()
        invariant
            0 <= i <= records.len(),
            views == crate::domain::model::instance_type::records_view(records@),
            forall|j: int| 0 <= j < i ==> (#[trigger] views[j]).name != name@,
        decreases records.len() - i,
    {
        proof {
            assert(views[i as int] == records@[i as int]@);
        }
        if records[i].name == *name {
            return true;
        }
        i = i + 1;
    }
    false
}

/// Turns the products of a pricing list into the instance types of the
/// catalog.
///
/// A product that is not for Linux, or that lacks a name, a readable memory
/// or a readable vcpu count, is left out. Of several products with one
/// name, the first stands. The records come in the order of the products.
pub fn deserialize_instance_types(products: &Vec<RawProduct>) -> (instance_types: Vec<InstanceType>)
    ensures
        crate::domain::model::instance_type::records_view(instance_types@) == catalog_records(
            products_view(products@),
        ),
{
    let mut instance_types: Vec<InstanceType> = Vec::new();
    let ghost all = products_view(products@);
    let mut i: usize = 0;
    while i < products.len()
        invariant
            0 <= i <= products.len(),
            all == products_view(products@),
            crate::domain::model::instance_type::records_view(instance_types@) == catalog_records(
                all.take(i as int),
            ),
        decreases products.len() - i,
    {
        let ghost before = crate::domain::model::instance_type::records_view(instance_types@);
        proof {
            assert(all.take(i as int + 1).drop_last() =~= all.take(i as int));
            assert(all.take(i as int + 1).last() == products@[i as int]@);
        }
        match parse_product(&products[i]) {
            Some(instance_type) => {
                if !contains_name(&instance_types, &instance_type.name) {
                    instance_types.push(instance_type);
                    proof {
                        assert(crate::domain::model::instance_type::records_view(instance_types@)
                            =~= before.push(instance_type@));
                    }
                }
            },
            None => {},
        }
        i = i + 1;
    }
    proof {
        assert(all.take(i as int) =~= all);
    }
    instance_types
}

} // verus!
