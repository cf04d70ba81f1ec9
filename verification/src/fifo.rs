//! Leaders that produce blocks first come, first served.
//!
//! They take no part in tip or compute-price bidding, so a send that targets one
//! drops both bids whatever its caller asked for.

use vstd::prelude::*;

verus! {

/// Vote accounts of first-come leaders, each with the id of the client type it
/// runs. The same account may appear under several client types.
pub const FIFO_LEADERS: [([u8; 32], u16); 34] = [
    // Fd7btgySsrjuo25CJCj7oE7VPMyezDhnx7pZkj2v69Nk
    (
        [
            217, 67, 253, 146, 137, 104, 16, 238, 130, 112, 132, 79, 28, 13, 217, 138,
            30, 180, 70, 52, 28, 225, 118, 63, 219, 155, 189, 233, 186, 124, 138, 197,
        ],
        8,
    ),
    // Fd7btgySsrjuo25CJCj7oE7VPMyezDhnx7pZkj2v69Nk
    (
        [
            217, 67, 253, 146, 137, 104, 16, 238, 130, 112, 132, 79, 28, 13, 217, 138,
            30, 180, 70, 52, 28, 225, 118, 63, 219, 155, 189, 233, 186, 124, 138, 197,
        ],
        1,
    ),
    // q9XWcZ7T1wP4bW9SB4XgNNwjnFEJ982nE8aVbbNuwot
    (
        [
            12, 85, 132, 238, 134, 158, 11, 63, 248, 56, 164, 167, 72, 72, 244, 234,
            104, 192, 160, 240, 243, 66, 107, 221, 36, 214, 241, 178, 219, 240, 15, 103,
        ],
        1,
    ),
    // q9XWcZ7T1wP4bW9SB4XgNNwjnFEJ982nE8aVbbNuwot
    (
        [
            12, 85, 132, 238, 134, 158, 11, 63, 248, 56, 164, 167, 72, 72, 244, 234,
            104, 192, 160, 240, 243, 66, 107, 221, 36, 214, 241, 178, 219, 240, 15, 103,
        ],
        8,
    ),
    // Awes4Tr6TX8JDzEhCZY2QVNimT6iD1zWHzf1vNyGvpLM
    (
        [
            147, 185, 91, 163, 219, 152, 93, 140, 202, 228, 144, 105, 66, 143, 236, 242,
            255, 59, 125, 166, 98, 169, 88, 186, 158, 14, 70, 235, 13, 189, 22, 246,
        ],
        2,
    ),
    // 9jxgosAfHgHzwnxsHw4RAZYaLVokMbnYtmiZBreynGFP
    (
        [
            129, 222, 218, 169, 31, 151, 94, 153, 18, 194, 107, 149, 75, 67, 0, 108,
            224, 180, 157, 108, 34, 240, 223, 187, 151, 248, 192, 154, 188, 145, 186, 70,
        ],
        5,
    ),
    // E1r4Psq84tHfQ6aPTvvDka4U3u8zPVD7gEUrH25RdxHL
    (
        [
            193, 95, 102, 147, 210, 11, 19, 201, 90, 43, 116, 55, 92, 80, 243, 115,
            19, 70, 145, 206, 117, 126, 249, 16, 51, 125, 99, 84, 70, 38, 221, 79,
        ],
        1,
    ),
    // JupmVLmA8RoyTUbTMMuTtoPWHEiNQobxgTeGTrPNkzT
    (
        [
            4, 150, 153, 255, 130, 66, 176, 67, 191, 107, 31, 201, 209, 158, 252, 57,
            217, 230, 103, 25, 210, 75, 214, 216, 188, 225, 101, 17, 223, 22, 39, 88,
        ],
        1,
    ),
    // JD549HsbJHeEKKUrKgg4Fj2iyv2RGjsV7NTZjZUrHybB
    (
        [
            255, 174, 59, 70, 98, 0, 231, 103, 112, 179, 123, 187, 232, 29, 3, 9,
            238, 130, 229, 26, 255, 171, 27, 213, 166, 126, 74, 232, 81, 59, 251, 14,
        ],
        2,
    ),
    // 9rkJMARqK6VBkcxGfKBAwnA44gPAfGxPbPsfsggFNDSQ
    (
        [
            131, 155, 233, 219, 45, 136, 142, 49, 79, 172, 131, 73, 0, 56, 134, 77,
            93, 241, 210, 225, 246, 251, 188, 126, 143, 250, 64, 92, 205, 72, 141, 185,
        ],
        1,
    ),
    // 5Cchr1XGEg7dbBXByV5NY2ad8jfxAM7HA3x8D56rq9Ux
    (
        [
            62, 104, 129, 235, 130, 89, 30, 147, 40, 211, 59, 154, 0, 95, 50, 240,
            144, 87, 213, 87, 51, 133, 227, 6, 7, 101, 217, 20, 48, 246, 167, 37,
        ],
        3,
    ),
    // 5pPRHniefFjkiaArbGX3Y8NUysJmQ9tMZg3FrFGwHzSm
    (
        [
            71, 146, 101, 13, 30, 154, 79, 233, 151, 33, 97, 124, 125, 71, 200, 113,
            44, 20, 194, 10, 118, 191, 4, 51, 104, 198, 82, 140, 144, 144, 83, 26,
        ],
        1,
    ),
    // BkoS26vBuaXnSowACdChi4WKid8UwmuPNhEJWa8KsLHd
    (
        [
            159, 205, 88, 27, 3, 235, 165, 146, 54, 180, 202, 11, 247, 227, 62, 23,
            45, 202, 221, 142, 74, 87, 154, 187, 247, 174, 115, 201, 22, 64, 101, 128,
        ],
        1,
    ),
    // Aw5wEMXhbygFLR7jHtHpih8QvxVBGAMTqsQ2SjWPk1ex
    (
        [
            147, 148, 32, 69, 22, 151, 191, 113, 107, 164, 80, 230, 175, 81, 126, 81,
            32, 248, 30, 120, 65, 220, 179, 37, 133, 48, 174, 181, 83, 121, 235, 209,
        ],
        1,
    ),
    // AEHqTB2RtJjegsR2ePjvoJSm6AA5pnYKWVbcsn6kqTBD
    (
        [
            137, 32, 196, 199, 53, 235, 198, 64, 47, 125, 205, 162, 76, 177, 24, 252,
            222, 57, 59, 68, 99, 142, 65, 181, 59, 72, 2, 156, 83, 43, 82, 136,
        ],
        1,
    ),
    // DNVZMSqeRH18Xa4MCTrb1MndNf3Npg4MEwqswo23eWkf
    (
        [
            183, 205, 187, 3, 30, 39, 167, 204, 176, 27, 192, 126, 28, 90, 48, 155,
            24, 97, 42, 22, 232, 16, 0, 184, 145, 238, 141, 70, 13, 51, 103, 0,
        ],
        5,
    ),
    // FBbqKvwLfKGZrKrfSbPJz4ymQ7zMarhRyZtu1RBkSe89
    (
        [
            210, 186, 207, 164, 58, 61, 196, 44, 153, 203, 4, 21, 146, 6, 63, 61,
            226, 212, 152, 106, 110, 201, 201, 216, 200, 119, 105, 95, 152, 28, 151, 170,
        ],
        5,
    ),
    // FBKFWadXZJahGtFitAsBvbqh5968gLY7dMBBJUoUjeNi
    (
        [
            210, 168, 15, 131, 45, 112, 213, 58, 194, 213, 60, 123, 104, 124, 255, 99,
            243, 138, 191, 24, 26, 198, 150, 135, 212, 226, 159, 228, 67, 57, 178, 95,
        ],
        1,
    ),
    // FBKFWadXZJahGtFitAsBvbqh5968gLY7dMBBJUoUjeNi
    (
        [
            210, 168, 15, 131, 45, 112, 213, 58, 194, 213, 60, 123, 104, 124, 255, 99,
            243, 138, 191, 24, 26, 198, 150, 135, 212, 226, 159, 228, 67, 57, 178, 95,
        ],
        10,
    ),
    // EUcJwf7jXskRE6NZBtFPVH2EedNvNYko8LL2WT62XctB
    (
        [
            200, 58, 137, 74, 214, 196, 202, 98, 31, 151, 57, 251, 249, 25, 37, 186,
            149, 54, 194, 181, 182, 29, 185, 30, 16, 139, 72, 128, 201, 110, 7, 100,
        ],
        1,
    ),
    // anza1rXDVhy1NfVNtsbT3kSBh2jgB1BGZUKuUibSAJd
    (
        [
            8, 168, 43, 176, 217, 178, 222, 221, 33, 66, 129, 112, 143, 44, 140, 183,
            147, 139, 177, 3, 2, 40, 231, 161, 151, 177, 46, 255, 180, 64, 205, 170,
        ],
        1,
    ),
    // UPSCQNqdbiaqrQou9X9y8mr43ZHzvoNpKC26Mo7GubF
    (
        [
            7, 4, 12, 108, 107, 103, 152, 16, 99, 170, 11, 27, 230, 207, 19, 84,
            115, 63, 95, 78, 224, 105, 202, 234, 94, 225, 158, 62, 44, 227, 237, 10,
        ],
        1,
    ),
    // 5Us18hLZPXJTS4QVuGSsUw137Dyd2tgBaem24Xsf5nBS
    (
        [
            66, 145, 247, 162, 26, 175, 228, 128, 170, 167, 103, 135, 93, 195, 9, 112,
            234, 221, 64, 222, 236, 15, 136, 133, 238, 76, 209, 19, 77, 172, 147, 241,
        ],
        3,
    ),
    // 8tjFeSApQ85ThoQXT28acfF2KUfQr3TvTdirSkzNnYC7
    (
        [
            117, 66, 52, 110, 99, 156, 102, 189, 117, 65, 185, 186, 241, 140, 86, 124,
            36, 165, 211, 133, 29, 21, 139, 166, 46, 174, 141, 59, 115, 33, 212, 24,
        ],
        8,
    ),
    // 7PdKhpKz7T39vZHFL1UfcYNDsLvay6hp4KPQq1aUckFf
    (
        [
            94, 241, 248, 36, 255, 240, 232, 200, 195, 9, 210, 134, 72, 143, 162, 37,
            75, 255, 152, 103, 151, 24, 219, 115, 171, 116, 47, 165, 143, 251, 177, 38,
        ],
        2,
    ),
    // 7PdKhpKz7T39vZHFL1UfcYNDsLvay6hp4KPQq1aUckFf
    (
        [
            94, 241, 248, 36, 255, 240, 232, 200, 195, 9, 210, 134, 72, 143, 162, 37,
            75, 255, 152, 103, 151, 24, 219, 115, 171, 116, 47, 165, 143, 251, 177, 38,
        ],
        8,
    ),
    // 2Wf9V9rPeVRUTfmWdPedCJuWVr6MFfyLuigEq42DuMDc
    (
        [
            22, 116, 169, 156, 195, 20, 232, 99, 163, 239, 70, 5, 115, 198, 81, 97,
            13, 210, 142, 42, 240, 197, 181, 11, 196, 102, 52, 133, 89, 55, 109, 235,
        ],
        1,
    ),
    // HH5dA42XF1HxNk1TRpG6LuKfLViMYNdAz5iWrFM4hWFi
    (
        [
            241, 217, 130, 237, 185, 149, 191, 202, 65, 229, 13, 159, 152, 6, 109, 121,
            218, 157, 132, 202, 133, 237, 8, 122, 246, 232, 26, 224, 197, 216, 151, 89,
        ],
        1,
    ),
    // Gv9gguvrAkgQtB5g5a3Un7trcHCxLYsk8vSojLmQMsWV
    (
        [
            236, 124, 231, 247, 142, 114, 100, 124, 19, 168, 47, 201, 237, 160, 220, 172,
            45, 54, 7, 39, 205, 100, 6, 139, 125, 18, 168, 115, 100, 6, 202, 134,
        ],
        1,
    ),
    // H8fHToVcZPi5bupGZohGPX2SWs8NHzgFKQ31wi5n6oux
    (
        [
            239, 177, 88, 26, 36, 126, 67, 84, 80, 38, 220, 166, 85, 98, 174, 46,
            20, 75, 169, 224, 157, 166, 119, 70, 218, 223, 122, 226, 180, 155, 164, 207,
        ],
        8,
    ),
    // ChorusmmK7i1AxXeiTtQgQZhQNiXYU84ULeaYF1EH15n
    (
        [
            173, 228, 198, 32, 250, 76, 168, 233, 241, 252, 180, 132, 200, 89, 26, 62,
            96, 62, 91, 21, 85, 23, 100, 128, 227, 83, 235, 69, 40, 132, 193, 101,
        ],
        1,
    ),
    // HEL1USMZKAL2odpNBj2oCjffnFGaYwmbGmyewGv1e2TU
    (
        [
            241, 37, 8, 175, 167, 7, 31, 236, 95, 212, 127, 103, 22, 157, 180, 249,
            110, 181, 155, 27, 90, 236, 3, 10, 69, 79, 17, 144, 23, 13, 166, 203,
        ],
        1,
    ),
    // GQzMeEMwAR44ugoNCifTb5NdRKos1GduDUPeNh6AgV46
    (
        [
            229, 4, 131, 216, 108, 62, 246, 171, 59, 13, 157, 148, 97, 102, 114, 194,
            238, 149, 232, 170, 239, 106, 85, 228, 40, 201, 191, 248, 120, 225, 17, 235,
        ],
        1,
    ),
    // ACvL73V4GNnxPVfZ7K89jCrYurLyzpEuE9qirjvh2Xmi
    (
        [
            136, 198, 222, 247, 94, 153, 139, 92, 114, 137, 95, 217, 58, 122, 5, 240,
            134, 252, 151, 153, 178, 245, 79, 7, 7, 158, 131, 164, 53, 44, 13, 33,
        ],
        1,
    ),
];

} // verus!
