use vstd::prelude::*;
use vstd::utf8::encode_utf8;

verus! {

/// Whether `name` can name the product of an order: it is not empty and its
/// UTF-8 encoding is at most 300 bytes long.
pub open spec fn valid_product_name(name: Seq<char>) -> bool {
    &&& name.len() > 0
    &&& encode_utf8(name).len() <= 300
}

/// One call of a setter of `Order`, with its argument.
pub enum OrderEdit {
    SetProductName(Seq<char>),
    SetQuantity(u32),
    SetUnitPrice(u32),
}

/// Whether the setter of `edit` accepts its argument.
pub open spec fn edit_accepted(edit: OrderEdit) -> bool {
    match edit {
        OrderEdit::SetProductName(name) => valid_product_name(name),
        OrderEdit::SetQuantity(q) => q > 0,
        OrderEdit::SetUnitPrice(p) => p > 0,
    }
}

/// Whether every setter call in `edits` accepts its argument.
pub open spec fn edits_accepted(edits: Seq<OrderEdit>) -> bool {
    forall|i: int| 0 <= i < edits.len() ==> edit_accepted(#[trigger] edits[i])
}

/// The product name, quantity and unit price of an order after `edit`, where
/// they were `state` before.
pub open spec fn edited(state: (Seq<char>, u32, u32), edit: OrderEdit) -> (Seq<char>, u32, u32) {
    match edit {
        OrderEdit::SetProductName(name) => (name, state.1, state.2),
        OrderEdit::SetQuantity(q) => (state.0, q, state.2),
        OrderEdit::SetUnitPrice(p) => (state.0, state.1, p),
    }
}

/// The product name, quantity and unit price after the setter calls of
/// `edits`, in order, starting from `state`.
pub open spec fn after_edits(state: (Seq<char>, u32, u32), edits: Seq<OrderEdit>) -> (
    Seq<char>,
    u32,
    u32,
)
    decreases edits.len(),
{
    if edits.len() == 0 {
        state
    } else {
        edited(after_edits(state, edits.drop_last()), edits.last())
    }
}

/// The argument of the last `SetProductName` in `edits`, or `name` where
/// there is none.
pub open spec fn last_product_name(name: Seq<char>, edits: Seq<OrderEdit>) -> Seq<char>
    decreases edits.len(),
{
    if edits.len() == 0 {
        name
    } else {
        match edits.last() {
            OrderEdit::SetProductName(n) => n,
            _ => last_product_name(name, edits.drop_last()),
        }
    }
}

/// The argument of the last `SetQuantity` in `edits`, or `q` where there is
/// none.
pub open spec fn last_quantity(q: u32, edits: Seq<OrderEdit>) -> u32
    decreases edits.len(),
{
    if edits.len() == 0 {
        q
    } else {
        match edits.last() {
            OrderEdit::SetQuantity(n) => n,
            _ => last_quantity(q, edits.drop_last()),
        }
    }
}

/// The argument of the last `SetUnitPrice` in `edits`, or `p` where there is
/// none.
pub open spec fn last_unit_price(p: u32, edits: Seq<OrderEdit>) -> u32
    decreases edits.len(),
{
    if edits.len() == 0 {
        p
    } else {
        match edits.last() {
            OrderEdit::SetUnitPrice(n) => n,
            _ => last_unit_price(p, edits.drop_last()),
        }
    }
}

/// Whether a product name, quantity and unit price make a valid order.
pub open spec fn valid_state(state: (Seq<char>, u32, u32)) -> bool {
    &&& valid_product_name(state.0)
    &&& state.1 > 0
    &&& state.2 > 0
}

/// An order of `quantity` units of a product, each at `unit_price` cents.
pub struct Order {
    product_name: String,
    quantity: u32,
    unit_price: u32,
}

impl Order {
    /// The product's name.
    pub closed spec fn name_view(&self) -> Seq<char> {
        self.product_name@
    }

    /// The number of units ordered.
    pub closed spec fn quantity_view(&self) -> u32 {
        self.quantity
    }

    /// The price of one unit, in cents.
    pub closed spec fn price_view(&self) -> u32 {
        self.unit_price
    }

    /// The product name, quantity and unit price, together.
    pub open spec fn state(&self) -> (Seq<char>, u32, u32) {
        (self.name_view(), self.quantity_view(), self.price_view())
    }

    /// Every order has a valid product name, a quantity above zero and a unit
    /// price above zero.
    pub open spec fn valid(&self) -> bool {
        &&& valid_product_name(self.name_view())
        &&& self.quantity_view() > 0
        &&& self.price_view() > 0
    }

    /// An order of `q` units of the product `name` at `p` cents each.
    pub fn new(name: String, q: u32, p: u32) -> (order: Order)
        requires
            valid_product_name(name@),
            q > 0,
            p > 0,
        ensures
            order.name_view() == name@,
            order.quantity_view() == q,
            order.price_view() == p,
            order.valid(),
    {
        let aux = Order { product_name: name, quantity: q, unit_price: p };
        aux
    }

    /// The price of the whole order, in cents.
    pub fn total(&self) -> (t: u32)
        requires
            self.quantity_view() * self.price_view() <= u32::MAX,
        ensures
            t == self.quantity_view() * self.price_view(),
    {
        self.quantity * self.unit_price
    }

    /// Renames the product.
    pub fn set_product_name(&mut self, new_name: String)
        requires
            valid_product_name(new_name@),
        ensures
            final(self).name_view() == new_name@,
            final(self).quantity_view() == old(self).quantity_view(),
            final(self).price_view() == old(self).price_view(),
            old(self).valid() ==> final(self).valid(),
            final(self).state() == edited(old(self).state(), OrderEdit::SetProductName(new_name@)),
    {
        self.product_name = new_name
    }

    /// Changes the number of units.
    pub fn set_quantity(&mut self, n_q: u32)
        requires
            n_q > 0,
        ensures
            final(self).name_view() == old(self).name_view(),
            final(self).quantity_view() == n_q,
            final(self).price_view() == old(self).price_view(),
            old(self).valid() ==> final(self).valid(),
            final(self).state() == edited(old(self).state(), OrderEdit::SetQuantity(n_q)),
    {
        self.quantity = n_q
    }

    /// Changes the price of one unit.
    pub fn set_unit_price(&mut self, n_p: u32)
        requires
            n_p > 0,
        ensures
            final(self).name_view() == old(self).name_view(),
            final(self).quantity_view() == old(self).quantity_view(),
            final(self).price_view() == n_p,
            old(self).valid() ==> final(self).valid(),
            final(self).state() == edited(old(self).state(), OrderEdit::SetUnitPrice(n_p)),
    {
        self.unit_price = n_p
    }

    /// The product's name.
    pub fn product_name(&self) -> (name: &String)
        ensures
            name@ == self.name_view(),
    {
        &self.product_name
    }

    /// The number of units ordered.
    pub fn quantity(&self) -> (q: &u32)
        ensures
            *q == self.quantity_view(),
    {
        &self.quantity
    }

    /// The price of one unit, in cents.
    pub fn unit_price(&self) -> (p: &u32)
        ensures
            *p == self.price_view(),
    {
        &self.unit_price
    }
}

/// Checks a candidate product name the way `Order::new` and
/// `Order::set_product_name` require it.
pub fn is_valid_product_name(name: &String) -> (ok: bool)
    requires
        encode_utf8(name@).len() <= usize::MAX,
    ensures
        ok == valid_product_name(name@),
{
    let s = name.as_str();
    !s.is_empty() && s.len() <= 300
}

/// Whatever setters are called on an order made by `Order::new(name, q, p)`,
/// in whatever order, each getter then gives the argument of the last call of
/// its setter (or the value given to `new` where its setter was never
/// called), and the order stays valid.
pub proof fn law_getters_give_last_set(
    name: Seq<char>,
    q: u32,
    p: u32,
    edits: Seq<OrderEdit>,
)
    requires
        valid_product_name(name),
        q > 0,
        p > 0,
        edits_accepted(edits),
    ensures
        after_edits((name, q, p), edits) == (
            last_product_name(name, edits),
            last_quantity(q, edits),
            last_unit_price(p, edits),
        ),
        valid_state(after_edits((name, q, p), edits)),
    decreases edits.len(),
{
    if edits.len() > 0 {
        let rest = edits.drop_last();
        assert forall|i: int| 0 <= i < rest.len() implies edit_accepted(#[trigger] rest[i]) by {
            assert(rest[i] == edits[i]);
        }
        law_getters_give_last_set(name, q, p, rest);
        assert(edit_accepted(edits[edits.len() - 1]));
    }
}

} // verus!
