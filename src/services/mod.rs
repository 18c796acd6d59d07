pub mod account;
pub mod authorization;
pub mod checkout;
pub mod customer;
pub mod merchant;
pub mod payouts;
pub mod personal;
pub mod subaccounts;
pub mod transactions;

pub use account::Account;
pub use authorization::{Authorization, TokenStep};
pub use checkout::Checkout;
pub use customer::Customer;
pub use merchant::Merchant;
pub use payouts::Payouts;
pub use personal::Personal;
pub use subaccounts::Subaccounts;
pub use transactions::Transactions;
