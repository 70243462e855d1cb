//! Addresses and names that are fixed.

use super::pubkey::Pubkey;
use vstd::prelude::*;

verus! {

/// The namespace under which the names of instructions are hashed.
pub const INSTRUCTION_NAMESPACE: &'static str = "global";

/// Where a transaction can be looked up, followed by its signature.
pub const ECLIPSE_EXPLORER_URL: &'static str = "https://eclipsescan.xyz/tx/";

/// The system program. In base58: `11111111111111111111111111111111`.
pub const SYSTEM_PROGRAM_ID: [u8; 32] = [
    0, 0, 0, 0, 0, 0, 0, 0, 0, 0, 0, 0, 0, 0, 0, 0,
    0, 0, 0, 0, 0, 0, 0, 0, 0, 0, 0, 0, 0, 0, 0, 0,
];

/// The token program. In base58: `TokenzQdBNbLqP5VEhdkAS6EPFLC1PHnBqCXEpPxuEb`.
pub const TOKEN_2022_PROGRAM_ID: [u8; 32] = [
    6, 221, 246, 225, 238, 117, 143, 222, 24, 66, 93, 188, 228, 108, 205, 218,
    182, 26, 252, 77, 131, 185, 13, 39, 254, 189, 249, 40, 216, 161, 139, 252,
];

/// The program that owns associated token accounts. In base58: `ATokenGPvbdGVxr1b2hvZbsiqW5xWH25efTNsLJA8knL`.
pub const ASSOCIATED_TOKEN_PROGRAM_ID: [u8; 32] = [
    140, 151, 37, 143, 78, 36, 137, 241, 187, 61, 16, 41, 20, 142, 13, 131,
    11, 90, 19, 153, 218, 255, 16, 132, 4, 142, 123, 216, 219, 233, 248, 89,
];

/// The mint of wrapped ether. In base58: `9pan9bMn5HatX4EJdBwg9VgCa7Uz5HL8N1m5D3NdXejP`.
pub const ETH_PUBKEY: [u8; 32] = [
    131, 13, 252, 159, 222, 95, 230, 184, 170, 124, 4, 164, 118, 233, 30, 138,
    198, 187, 38, 74, 173, 144, 250, 25, 201, 223, 73, 216, 92, 62, 91, 94,
];

/// The mint of USDC. In base58: `AKEWE7Bgh87GPp171b4cJPSSZfmZwQ3KaqYqXoKLNAEE`.
pub const USDC_PUBKEY: [u8; 32] = [
    138, 100, 231, 226, 206, 231, 188, 170, 104, 241, 99, 173, 166, 126, 65, 77,
    76, 83, 148, 112, 39, 71, 215, 1, 80, 139, 225, 107, 80, 37, 116, 123,
];

/// The mint of SOL. In base58: `BeRUj3h7BqkbdfFU7FBNYbodgf8GCHodzKvF9aVjNNfL`.
pub const SOL_PUBKEY: [u8; 32] = [
    158, 43, 9, 93, 85, 171, 140, 163, 93, 59, 50, 189, 105, 155, 74, 124,
    52, 40, 238, 118, 24, 96, 139, 156, 221, 193, 158, 192, 209, 107, 38, 75,
];

/// The Lifinity program. In base58: `4UsSbJQZJTfZDFrgvcPBRCSg5BbcQE6dobnriCafzj12`.
pub const LIFINITY_PROGRAM_ID: [u8; 32] = [
    51, 182, 198, 214, 43, 128, 230, 85, 196, 15, 128, 62, 27, 40, 121, 14,
    12, 210, 48, 96, 226, 63, 175, 112, 130, 192, 155, 62, 190, 249, 195, 17,
];

/// The pool of ether and USDC. In base58: `64EYB9hAmVJ9kpBNLkmaHhiVnGdr5PJEwi4K7PdxBiLH`.
pub const ETH_USDC_AMM_PUBKEY: [u8; 32] = [
    75, 30, 123, 228, 188, 143, 220, 2, 196, 211, 30, 241, 87, 45, 193, 143,
    18, 145, 23, 244, 17, 217, 53, 253, 190, 231, 43, 42, 208, 104, 74, 34,
];

/// The pool of SOL and USDC. In base58: `8cCS9KGb1nArpEJPExfQzAk3VKWS2Zc5KdTmqYYFTkni`.
pub const SOL_USDC_AMM_PUBKEY: [u8; 32] = [
    113, 6, 16, 144, 193, 170, 138, 93, 177, 109, 123, 114, 247, 233, 71, 127,
    99, 77, 27, 156, 72, 235, 223, 58, 118, 0, 135, 120, 21, 249, 198, 119,
];

} // verus!
