//! What is kept of a wallet once its key pair has been made.

use vstd::prelude::*;

verus! {

/// The character of one hexadecimal digit, in lower case.
pub open spec fn hex_digit(n: int) -> char
    recommends
        0 <= n < 16,
{
    seq!['0', '1', '2', '3', '4', '5', '6', '7', '8', '9', 'a', 'b', 'c', 'd', 'e', 'f'][n]
}

/// Bytes in hexadecimal: two lower-case digits for each byte, the high half
/// first.
pub open spec fn hex_text(bytes: Seq<u8>) -> Seq<char> {
    Seq::new(
        2 * bytes.len(),
        |at: int|
            if at % 2 == 0 {
                hex_digit(bytes[at / 2] as int / 16)
            } else {
                hex_digit(bytes[at / 2] as int % 16)
            },
    )
}

/// Writes bytes with `hex::encode`: two lower-case hexadecimal digits for
/// each byte, in the order of the bytes, the high four bits first.
#[verifier::external_body]
fn hex_encode(bytes: &[u8]) -> (text: String)
    ensures
        text@ == hex_text(bytes@),
{
    hex::encode(bytes)
}

/// A wallet as it is handed to the user once.
pub struct WalletInfo {
    pub mnemonic: String,
    pub private_key: String,
    pub public_key: String,
    pub address: String,
}

/// The maker of wallet records.
pub struct WalletHandler {}

impl WalletHandler {
    /// Makes the wallet of a key pair: its phrase, its secret key in
    /// hexadecimal, and the public key and the address in the form they were
    /// given in.
    pub fn generate_wallet(
        phrase: String,
        secret_key: &[u8],
        public_key: String,
        address: String,
    ) -> (wallet: WalletInfo)
        ensures
            wallet.mnemonic@ == phrase@,
            wallet.private_key@ == hex_text(secret_key@),
            wallet.public_key@ == public_key@,
            wallet.address@ == address@,
    {
        WalletInfo { mnemonic: phrase, private_key: hex_encode(secret_key), public_key, address }
    }
}

} // verus!
