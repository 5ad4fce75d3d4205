//! Builders for parties, addresses and invoice lines.
use vstd::prelude::*;
use crate::date::Date;
use crate::decimal::Dec;
use crate::model::types::{
    Address, AllowanceCharge, Contact, ElectronicAddress, ItemAttribute, LineItem, Party, Period,
    TaxCategory,
};
use crate::text::string_of;

verus! {

pub open spec fn opt_str_is(o: Option<String>, s: Seq<char>) -> bool {
    o matches Some(v) && v@ == s
}

/// Builder for Party (seller/buyer).
pub struct PartyBuilder {
    party: Party,
}

impl View for PartyBuilder {
    type V = Party;

    closed spec fn view(&self) -> Party {
        self.party
    }
}

impl PartyBuilder {
    /// Create a new party with the required name and postal address.
    pub fn new(name: &str, address: Address) -> (r: PartyBuilder)
        ensures
            r@.name@ == name@,
            r@.address == address,
            r@.vat_id is None,
            r@.tax_number is None,
            r@.registration_id is None,
            r@.trading_name is None,
            r@.contact is None,
            r@.electronic_address is None,
    {
        PartyBuilder {
            party: Party {
                name: string_of(name),
                vat_id: None,
                tax_number: None,
                registration_id: None,
                trading_name: None,
                address,
                contact: None,
                electronic_address: None,
            },
        }
    }

    /// Set the VAT identification number (BT-31/BT-48).
    pub fn vat_id(self, id: &str) -> (r: PartyBuilder)
        ensures
            r@ == (Party { vat_id: r@.vat_id, ..self@ }),
            opt_str_is(r@.vat_id, id@),
    {
        PartyBuilder { party: Party { vat_id: Some(string_of(id)), ..self.party } }
    }

    /// Set the German tax number / Steuernummer (BT-32).
    pub fn tax_number(self, num: &str) -> (r: PartyBuilder)
        ensures
            r@ == (Party { tax_number: r@.tax_number, ..self@ }),
            opt_str_is(r@.tax_number, num@),
    {
        PartyBuilder { party: Party { tax_number: Some(string_of(num)), ..self.party } }
    }

    /// Set the legal registration identifier (BT-30/BT-47).
    pub fn registration_id(self, id: &str) -> (r: PartyBuilder)
        ensures
            r@ == (Party { registration_id: r@.registration_id, ..self@ }),
            opt_str_is(r@.registration_id, id@),
    {
        PartyBuilder { party: Party { registration_id: Some(string_of(id)), ..self.party } }
    }

    /// Set the trading name (BT-28).
    pub fn trading_name(self, name: &str) -> (r: PartyBuilder)
        ensures
            r@ == (Party { trading_name: r@.trading_name, ..self@ }),
            opt_str_is(r@.trading_name, name@),
    {
        PartyBuilder { party: Party { trading_name: Some(string_of(name)), ..self.party } }
    }

    /// Set the contact person details (BG-6/BG-9).
    pub fn contact(self, name: Option<String>, phone: Option<String>, email: Option<String>) -> (r:
        PartyBuilder)
        ensures
            r@ == (Party { contact: Some(Contact { name, phone, email }), ..self@ }),
    {
        PartyBuilder { party: Party { contact: Some(Contact { name, phone, email }), ..self.party } }
    }

    /// Set the electronic address (BT-34/BT-49) with its scheme code.
    pub fn electronic_address(self, scheme: &str, value: &str) -> (r: PartyBuilder)
        ensures
            r@ == (Party { electronic_address: r@.electronic_address, ..self@ }),
            r@.electronic_address matches Some(e) && e.scheme@ == scheme@ && e.value@ == value@,
    {
        PartyBuilder {
            party: Party {
                electronic_address: Some(
                    ElectronicAddress { scheme: string_of(scheme), value: string_of(value) },
                ),
                ..self.party
            },
        }
    }

    /// The party.
    pub fn build(self) -> (r: Party)
        ensures
            r == self@,
    {
        self.party
    }
}

/// Builder for Address.
pub struct AddressBuilder {
    address: Address,
}

impl View for AddressBuilder {
    type V = Address;

    closed spec fn view(&self) -> Address {
        self.address
    }
}

impl AddressBuilder {
    /// Create a new address with city, postal code and country code.
    pub fn new(city: &str, postal_code: &str, country_code: &str) -> (r: AddressBuilder)
        ensures
            r@.city@ == city@,
            r@.postal_code@ == postal_code@,
            r@.country_code@ == country_code@,
            r@.street is None,
            r@.additional is None,
            r@.subdivision is None,
    {
        AddressBuilder {
            address: Address {
                street: None,
                additional: None,
                city: string_of(city),
                postal_code: string_of(postal_code),
                country_code: string_of(country_code),
                subdivision: None,
            },
        }
    }

    /// Set the street address line (BT-35).
    pub fn street(self, street: &str) -> (r: AddressBuilder)
        ensures
            r@ == (Address { street: r@.street, ..self@ }),
            opt_str_is(r@.street, street@),
    {
        AddressBuilder { address: Address { street: Some(string_of(street)), ..self.address } }
    }

    /// Set the additional address line (BT-36).
    pub fn additional(self, additional: &str) -> (r: AddressBuilder)
        ensures
            r@ == (Address { additional: r@.additional, ..self@ }),
            opt_str_is(r@.additional, additional@),
    {
        AddressBuilder {
            address: Address { additional: Some(string_of(additional)), ..self.address },
        }
    }

    /// Set the country subdivision (BT-39).
    pub fn subdivision(self, subdivision: &str) -> (r: AddressBuilder)
        ensures
            r@ == (Address { subdivision: r@.subdivision, ..self@ }),
            opt_str_is(r@.subdivision, subdivision@),
    {
        AddressBuilder {
            address: Address { subdivision: Some(string_of(subdivision)), ..self.address },
        }
    }

    /// The address.
    pub fn build(self) -> (r: Address)
        ensures
            r == self@,
    {
        self.address
    }
}

/// Builder for LineItem.
pub struct LineItemBuilder {
    line: LineItem,
}

impl View for LineItemBuilder {
    type V = LineItem;

    closed spec fn view(&self) -> LineItem {
        self.line
    }
}

impl LineItemBuilder {
    /// Create a new line item with ID, name, quantity, unit code and net unit
    /// price; the tax defaults to the standard rate of 19 %.
    pub fn new(id: &str, item_name: &str, quantity: Dec, unit: &str, unit_price: Dec) -> (r:
        LineItemBuilder)
        ensures
            r@.id@ == id@,
            r@.item_name@ == item_name@,
            r@.quantity == quantity,
            r@.unit@ == unit@,
            r@.unit_price == unit_price,
            r@.gross_price is None,
            r@.allowances@.len() == 0,
            r@.charges@.len() == 0,
            r@.tax_category == TaxCategory::StandardRate,
            r@.tax_rate@ == (19i128, 0u32),
            r@.line_amount is None,
            r@.description is None,
            r@.seller_item_id is None,
            r@.buyer_item_id is None,
            r@.standard_item_id is None,
            r@.note is None,
            r@.base_quantity is None,
            r@.base_quantity_unit is None,
            r@.origin_country is None,
            r@.attributes@.len() == 0,
            r@.invoicing_period is None,
    {
        LineItemBuilder {
            line: LineItem {
                id: string_of(id),
                quantity,
                unit: string_of(unit),
                unit_price,
                gross_price: None,
                allowances: Vec::new(),
                charges: Vec::new(),
                tax_category: TaxCategory::StandardRate,
                tax_rate: Dec::new(19, 0),
                item_name: string_of(item_name),
                description: None,
                seller_item_id: None,
                buyer_item_id: None,
                standard_item_id: None,
                line_amount: None,
                note: None,
                base_quantity: None,
                base_quantity_unit: None,
                origin_country: None,
                attributes: Vec::new(),
                invoicing_period: None,
            },
        }
    }

    /// Set the tax category and rate for this line.
    pub fn tax(self, category: TaxCategory, rate: Dec) -> (r: LineItemBuilder)
        ensures
            r@ == (LineItem { tax_category: category, tax_rate: rate, ..self@ }),
    {
        LineItemBuilder { line: LineItem { tax_category: category, tax_rate: rate, ..self.line } }
    }

    /// Set the gross price before line-level allowances (BT-148).
    pub fn gross_price(self, price: Dec) -> (r: LineItemBuilder)
        ensures
            r@ == (LineItem { gross_price: Some(price), ..self@ }),
    {
        LineItemBuilder { line: LineItem { gross_price: Some(price), ..self.line } }
    }

    /// Set the item description (BT-154).
    pub fn description(self, desc: &str) -> (r: LineItemBuilder)
        ensures
            r@ == (LineItem { description: r@.description, ..self@ }),
            opt_str_is(r@.description, desc@),
    {
        LineItemBuilder { line: LineItem { description: Some(string_of(desc)), ..self.line } }
    }

    /// Set the seller's item identifier (BT-155).
    pub fn seller_item_id(self, id: &str) -> (r: LineItemBuilder)
        ensures
            r@ == (LineItem { seller_item_id: r@.seller_item_id, ..self@ }),
            opt_str_is(r@.seller_item_id, id@),
    {
        LineItemBuilder { line: LineItem { seller_item_id: Some(string_of(id)), ..self.line } }
    }

    /// Set the standard item identifier (BT-157).
    pub fn standard_item_id(self, id: &str) -> (r: LineItemBuilder)
        ensures
            r@ == (LineItem { standard_item_id: r@.standard_item_id, ..self@ }),
            opt_str_is(r@.standard_item_id, id@),
    {
        LineItemBuilder { line: LineItem { standard_item_id: Some(string_of(id)), ..self.line } }
    }

    /// Set the buyer's item identifier (BT-156).
    pub fn buyer_item_id(self, id: &str) -> (r: LineItemBuilder)
        ensures
            r@ == (LineItem { buyer_item_id: r@.buyer_item_id, ..self@ }),
            opt_str_is(r@.buyer_item_id, id@),
    {
        LineItemBuilder { line: LineItem { buyer_item_id: Some(string_of(id)), ..self.line } }
    }

    /// Set the invoice line note (BT-127).
    pub fn note(self, note: &str) -> (r: LineItemBuilder)
        ensures
            r@ == (LineItem { note: r@.note, ..self@ }),
            opt_str_is(r@.note, note@),
    {
        LineItemBuilder { line: LineItem { note: Some(string_of(note)), ..self.line } }
    }

    /// Set the base quantity (BT-149) and its unit (BT-150).
    pub fn base_quantity(self, qty: Dec, unit: Option<String>) -> (r: LineItemBuilder)
        ensures
            r@ == (LineItem { base_quantity: Some(qty), base_quantity_unit: unit, ..self@ }),
    {
        LineItemBuilder {
            line: LineItem { base_quantity: Some(qty), base_quantity_unit: unit, ..self.line },
        }
    }

    /// Set the item country of origin (BT-159).
    pub fn origin_country(self, code: &str) -> (r: LineItemBuilder)
        ensures
            r@ == (LineItem { origin_country: r@.origin_country, ..self@ }),
            opt_str_is(r@.origin_country, code@),
    {
        LineItemBuilder { line: LineItem { origin_country: Some(string_of(code)), ..self.line } }
    }

    /// Add a line-level allowance (BG-27).
    pub fn add_allowance(self, allowance: AllowanceCharge) -> (r: LineItemBuilder)
        ensures
            r@ == (LineItem { allowances: r@.allowances, ..self@ }),
            r@.allowances@ == self@.allowances@.push(allowance),
    {
        let mut line = self.line;
        line.allowances.push(allowance);
        LineItemBuilder { line }
    }

    /// Add a line-level charge (BG-28).
    pub fn add_charge(self, charge: AllowanceCharge) -> (r: LineItemBuilder)
        ensures
            r@ == (LineItem { charges: r@.charges, ..self@ }),
            r@.charges@ == self@.charges@.push(charge),
    {
        let mut line = self.line;
        line.charges.push(charge);
        LineItemBuilder { line }
    }

    /// Add an item attribute (BT-160/BT-161).
    pub fn add_attribute(self, name: &str, value: &str) -> (r: LineItemBuilder)
        ensures
            r@ == (LineItem { attributes: r@.attributes, ..self@ }),
            r@.attributes@.len() == self@.attributes@.len() + 1,
            r@.attributes@.drop_last() == self@.attributes@,
            r@.attributes@.last().name@ == name@,
            r@.attributes@.last().value@ == value@,
    {
        let mut line = self.line;
        line.attributes.push(ItemAttribute { name: string_of(name), value: string_of(value) });
        proof {
            assert(line.attributes@.drop_last() =~= self@.attributes@);
        }
        LineItemBuilder { line }
    }

    /// Set the line-level invoicing period (BG-26).
    pub fn invoicing_period(self, start: Date, end: Date) -> (r: LineItemBuilder)
        ensures
            r@ == (LineItem { invoicing_period: Some(Period { start, end }), ..self@ }),
    {
        LineItemBuilder { line: LineItem { invoicing_period: Some(Period { start, end }), ..self.line } }
    }

    /// The line item.
    pub fn build(self) -> (r: LineItem)
        ensures
            r == self@,
    {
        self.line
    }
}

} // verus!
