//! Store initialization and product management.

use vstd::prelude::*;

use crate::errors::SupplyChainError;
use crate::state::{EntityId, Product, Store};

verus! {

/// Creates a store owned by the caller, active and with no products.
pub fn initialize_store(owner: EntityId, name: String, location: String) -> (store: Store)
    ensures
        store == (Store { owner, name, location, total_products: 0, is_active: true }),
{
    Store { owner, name, location, total_products: 0, is_active: true }
}

/// Creates a product of an active store and counts it, with
/// overflow-checked arithmetic. Only the store's owner may add, the
/// price and the quantity must be positive.
pub fn add_product(
    store: &mut Store,
    store_id: EntityId,
    caller: EntityId,
    name: String,
    description: String,
    price: u64,
    quantity: u64,
    now: i64,
) -> (result: Result<Product, SupplyChainError>)
    ensures
        result is Ok <==> {
            &&& old(store).owner == caller
            &&& old(store).is_active
            &&& price > 0
            &&& quantity > 0
            &&& old(store).total_products < u64::MAX
        },
        old(store).owner != caller ==> result == Err::<Product, SupplyChainError>(
            SupplyChainError::Unauthorized,
        ),
        old(store).owner == caller && !old(store).is_active ==> result == Err::<
            Product,
            SupplyChainError,
        >(SupplyChainError::StoreInactive),
        old(store).owner == caller && old(store).is_active && price == 0 ==> result == Err::<
            Product,
            SupplyChainError,
        >(SupplyChainError::InvalidPrice),
        old(store).owner == caller && old(store).is_active && price > 0 && quantity == 0
            ==> result == Err::<Product, SupplyChainError>(SupplyChainError::InvalidQuantity),
        old(store).owner == caller && old(store).is_active && price > 0 && quantity > 0 && old(
            store,
        ).total_products == u64::MAX ==> result == Err::<Product, SupplyChainError>(
            SupplyChainError::ArithmeticError,
        ),
        result is Err ==> *final(store) == *old(store),
        result matches Ok(product) ==> {
            &&& *final(store) == (Store {
                total_products: (old(store).total_products + 1) as u64,
                ..*old(store)
            })
            &&& product == (Product {
                store: store_id,
                name,
                description,
                price,
                quantity,
                created_at: now,
            })
        },
{
    if store.owner != caller {
        return Err(SupplyChainError::Unauthorized);
    }
    if !store.is_active {
        return Err(SupplyChainError::StoreInactive);
    }
    if price == 0 {
        return Err(SupplyChainError::InvalidPrice);
    }
    if quantity == 0 {
        return Err(SupplyChainError::InvalidQuantity);
    }
    if store.total_products == u64::MAX {
        return Err(SupplyChainError::ArithmeticError);
    }
    let product = Product { store: store_id, name, description, price, quantity, created_at: now };
    store.total_products = store.total_products + 1;
    Ok(product)
}

/// Overwrites a product's price and quantity where given. Only the
/// owner of the product's active store may update.
pub fn update_product(
    product: &mut Product,
    store_id: EntityId,
    store: &Store,
    caller: EntityId,
    price: Option<u64>,
    quantity: Option<u64>,
) -> (result: Result<(), SupplyChainError>)
    ensures
        result is Ok <==> store.owner == caller && store.is_active && old(product).store
            == store_id,
        store.owner != caller ==> result == Err::<(), SupplyChainError>(
            SupplyChainError::Unauthorized,
        ),
        store.owner == caller && !store.is_active ==> result == Err::<(), SupplyChainError>(
            SupplyChainError::StoreInactive,
        ),
        store.owner == caller && store.is_active && old(product).store != store_id ==> result
            == Err::<(), SupplyChainError>(SupplyChainError::InvalidRelationship),
        result is Err ==> *final(product) == *old(product),
        result is Ok ==> {
            &&& *final(product) == (Product {
                price: final(product).price,
                quantity: final(product).quantity,
                ..*old(product)
            })
            &&& final(product).price == (match price {
                Some(p) => p,
                None => old(product).price,
            })
            &&& final(product).quantity == (match quantity {
                Some(q) => q,
                None => old(product).quantity,
            })
        },
{
    if store.owner != caller {
        return Err(SupplyChainError::Unauthorized);
    }
    if !store.is_active {
        return Err(SupplyChainError::StoreInactive);
    }
    if product.store != store_id {
        return Err(SupplyChainError::InvalidRelationship);
    }
    match price {
        Some(new_price) => {
            product.price = new_price;
        },
        None => {},
    }
    match quantity {
        Some(new_quantity) => {
            product.quantity = new_quantity;
        },
        None => {},
    }
    Ok(())
}

} // verus!
