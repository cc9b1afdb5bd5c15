//! What the bot says before it acts: the texts and pictures it picks
//! from.

use vstd::prelude::*;
use vstd::string::*;

verus! {

/// How many pictures there are for the first warning.
pub const WARNING_GIF_COUNT: usize = 8;

/// How many pictures there are for the final warning.
pub const FINAL_WARNING_GIF_COUNT: usize = 4;

/// How many pictures there are for the lenient message.
pub const MERCIFUL_GIF_COUNT: usize = 3;

/// How many first warnings there are.
pub const WARNING_MESSAGE_COUNT: usize = 10;

/// How many final warnings there are.
pub const FINAL_WARNING_MESSAGE_COUNT: usize = 8;

/// How many lenient messages there are.
pub const MERCIFUL_MESSAGE_COUNT: usize = 8;

/// A picture for the first warning.
pub const WARNING_GIF_0: &'static str = "https://media3.giphy.com/media/v1.Y2lkPTc5MGI3NjExMmFrcjYxdzF1cjBmZjRxa3hoanFncG92bjhydXg2dWF3cTE2cnF4NyZlcD12MV9pbnRlcm5hbF9naWZfYnlfaWQmY3Q9Zw/mguPrVJAnEHIY/giphy.gif";

/// A picture for the first warning.
pub const WARNING_GIF_1: &'static str = "https://media3.giphy.com/media/v1.Y2lkPTc5MGI3NjExeHdsa2p3MDF3OHBteWUzZW9zcXc1OTV4cjRrbXZpZDUyY3RqeGM2NyZlcD12MV9pbnRlcm5hbF9naWZfYnlfaWQmY3Q9Zw/Bn9Wp6ryjMc9Qn1J9C/giphy.gif";

/// A picture for the first warning.
pub const WARNING_GIF_2: &'static str = "https://media1.giphy.com/media/v1.Y2lkPTc5MGI3NjExbWIxdXh2N3k0anV0cmVpbjJlZWs0YWYzbHZiZno5dDlhN210cWNjcyZlcD12MV9pbnRlcm5hbF9naWZfYnlfaWQmY3Q9Zw/ikckY3A4yfgX8IMrqr/giphy.gif";

/// A picture for the first warning.
pub const WARNING_GIF_3: &'static str = "https://media4.giphy.com/media/v1.Y2lkPTc5MGI3NjExNXdkbWU3eGtqY29hNGowNzMwYmljanpkcjVxZmE0cTEzdmQ4bW44YyZlcD12MV9pbnRlcm5hbF9naWZfYnlfaWQmY3Q9Zw/6cozGW0B5vZWQvAzfz/giphy.gif";

/// A picture for the first warning.
pub const WARNING_GIF_4: &'static str = "https://media0.giphy.com/media/v1.Y2lkPTc5MGI3NjExYWNkdDRsMzc0ZmczMmJzOGI2NHp3N3pzbG96b3M5Ynh1dWprNGt2NSZlcD12MV9pbnRlcm5hbF9naWZfYnlfaWQmY3Q9Zw/F0jAJOCyI1kA/giphy.gif";

/// A picture for the first warning.
pub const WARNING_GIF_5: &'static str = "https://media1.giphy.com/media/v1.Y2lkPTc5MGI3NjExZXc2b2h1bmE0azZodGNheTl0bTlxZ2ZvMnVycjA1MmEwZWMwZnVteSZlcD12MV9pbnRlcm5hbF9naWZfYnlfaWQmY3Q9Zw/uGRvUhuW1qdTrsMsj0/giphy.gif";

/// A picture for the first warning.
pub const WARNING_GIF_6: &'static str = "https://media4.giphy.com/media/v1.Y2lkPTc5MGI3NjExdzIxYTZ4NGEycDNuc2RwaWdtMzdmMDE1N2k5cm04MjFmZTdncjQ5cSZlcD12MV9pbnRlcm5hbF9naWZfYnlfaWQmY3Q9Zw/l3q2wMdhTXm84vbaw/giphy.gif";

/// A picture for the first warning.
pub const WARNING_GIF_7: &'static str = "https://media2.giphy.com/media/v1.Y2lkPTc5MGI3NjExOTRnazhhcWFyeGEydXNsb2hzcXNzcHB0Ymc3Z3A3MXp2cTJwNXJsdCZlcD12MV9pbnRlcm5hbF9naWZfYnlfaWQmY3Q9Zw/j2qhdPCYIrWen8fzyX/giphy.gif";

/// A picture for the final warning.
pub const FINAL_WARNING_GIF_0: &'static str = "https://media1.giphy.com/media/v1.Y2lkPTc5MGI3NjExbXVsdjF0c2I2ZndzMmRxNGtlNGZzZzVxeXZ6YmozNjB0cXEwbmtpciZlcD12MV9pbnRlcm5hbF9naWZfYnlfaWQmY3Q9Zw/3oKIPwoeGErMmaI43S/giphy.gif";

/// A picture for the final warning.
pub const FINAL_WARNING_GIF_1: &'static str = "https://media2.giphy.com/media/v1.Y2lkPTc5MGI3NjExeWp1eWZ2MWc2NnZqdDZtcGVqcjBxa2JqY3prY2ZhZm9mam5rb2NtaSZlcD12MV9pbnRlcm5hbF9naWZfYnlfaWQmY3Q9Zw/l0MYGb0LuZ3n7dRnO/giphy.gif";

/// A picture for the final warning.
pub const FINAL_WARNING_GIF_2: &'static str = "https://media3.giphy.com/media/v1.Y2lkPTc5MGI3NjExbHZrdnV3eGFtOGVrZDF6b3JmMzhtOWNsMHNxdGdmeHJqdXcyNTl1NSZlcD12MV9pbnRlcm5hbF9naWZfYnlfaWQmY3Q9Zw/FspLvJQlQACXu/giphy.gif";

/// A picture for the final warning.
pub const FINAL_WARNING_GIF_3: &'static str = "https://media4.giphy.com/media/v1.Y2lkPTc5MGI3NjExc2hqYWh5cHFia3JlZDNrejJsaGZvbGtoaGF6emdvY2NpODA3NDdlZyZlcD12MV9pbnRlcm5hbF9naWZfYnlfaWQmY3Q9Zw/l2QDM9Jnim1YVILXa/giphy.gif";

/// A picture for the lenient message.
pub const MERCIFUL_GIF_0: &'static str = "https://media1.giphy.com/media/v1.Y2lkPTc5MGI3NjExZXBxNXp0a2cza3EwcmFpcmF5ZXV2a3ppZjBlbXJhcGoxcTNlbjNxOSZlcD12MV9pbnRlcm5hbF9naWZfYnlfaWQmY3Q9Zw/26u4lOMA8JKSnL9Uk/giphy.gif";

/// A picture for the lenient message.
pub const MERCIFUL_GIF_1: &'static str = "https://media2.giphy.com/media/v1.Y2lkPTc5MGI3NjExbmxsZDB3bWVvMjNjZGxrazBpM3I0Yjl4dHF6cWt1cnlla2toOTVjZCZlcD12MV9pbnRlcm5hbF9naWZfYnlfaWQmY3Q9Zw/3o7TKwmnDgQb5jemjK/giphy.gif";

/// A picture for the lenient message.
pub const MERCIFUL_GIF_2: &'static str = "https://media3.giphy.com/media/v1.Y2lkPTc5MGI3NjExcHZteTNjeTNwMng5MGFld3AzNmpudnJ0cDFhNDV4YzllZnF4cnRrMCZlcD12MV9pbnRlcm5hbF9naWZfYnlfaWQmY3Q9Zw/l0MYu38R0PPhIXe36/giphy.gif";

/// A first warning, up to the number of seconds.
pub const WARNING_OPENING_0: &'static str = "⏰ **Bon allez, c'est l'heure !** ⏰\n\nIl est temps de déconnecter les gars. Vous avez **";

/// A first warning, up to the number of seconds.
pub const WARNING_OPENING_1: &'static str = "🚨 **Dernière chance !** 🚨\n\nSérieusement, il faut aller dormir maintenant. Dans **";

/// A first warning, up to the number of seconds.
pub const WARNING_OPENING_2: &'static str = "😴 **Allez au lit bordel !** 😴\n\nÇa fait des heures que vous êtes là-dessus ! Plus que **";

/// A first warning, up to the number of seconds.
pub const WARNING_OPENING_3: &'static str = "🔇 **Extinction des feux dans ";

/// A first warning, up to the number of seconds.
pub const WARNING_OPENING_4: &'static str = "⚡ **Coupage imminent !** ⚡\n\nVous connaissez la chanson : il est tard, vous devez dormir. **";

/// A first warning, up to the number of seconds.
pub const WARNING_OPENING_5: &'static str = "🛑 **Stop, c'est fini !** 🛑\n\nLe vocal ferme dans **";

/// A first warning, up to the number of seconds.
pub const WARNING_OPENING_6: &'static str = "💀 **Vous allez morfler** 💀\n\nDans **";

/// A first warning, up to the number of seconds.
pub const WARNING_OPENING_7: &'static str = "🎯 **Objectif : votre lit** 🎯\n\nVous avez **";

/// A first warning, up to the number of seconds.
pub const WARNING_OPENING_8: &'static str = "🔥 **Ça va chauffer !** 🔥\n\nDans **";

/// A first warning, up to the number of seconds.
pub const WARNING_OPENING_9: &'static str = "⚰️ **RIP vocal** ⚰️\n\nCe salon va mourir dans **";

/// A first warning, from the number of seconds on.
pub const WARNING_CLOSING_0: &'static str = " secondes** pour partir avant que je vous vire moi-même du vocal !";

/// A first warning, from the number of seconds on.
pub const WARNING_CLOSING_1: &'static str = " secondes**, je kick tout le monde sans exception. Vous êtes prévenus !";

/// A first warning, from the number of seconds on.
pub const WARNING_CLOSING_2: &'static str = " secondes** pour quitter le vocal, sinon c'est moi qui vous déconnecte de force !";

/// A first warning, from the number of seconds on.
pub const WARNING_CLOSING_3: &'static str = " secondes** 🔇\n\nTout le monde dégage du vocal ! Plus personne ne doit traîner ici après ça !";

/// A first warning, from the number of seconds on.
pub const WARNING_CLOSING_4: &'static str = " secondes** pour partir gentiment avant que ça devienne moins sympa !";

/// A first warning, from the number of seconds on.
pub const WARNING_CLOSING_5: &'static str = " secondes**. Pas de négociation, pas d'exception. Tout le monde dehors !";

/// A first warning, from the number of seconds on.
pub const WARNING_CLOSING_6: &'static str = " secondes**, je vous dégage de là. Après dites pas que vous étiez pas prévenus !";

/// A first warning, from the number of seconds on.
pub const WARNING_CLOSING_7: &'static str = " secondes** pour y aller par vous-mêmes. Sinon c'est moi qui vous aide à le retrouver !";

/// A first warning, from the number of seconds on.
pub const WARNING_CLOSING_8: &'static str = " secondes**, je déconnecte tout ce petit monde. Maintenant vous savez ce qui vous attend !";

/// A first warning, from the number of seconds on.
pub const WARNING_CLOSING_9: &'static str = " secondes**. Évacuez tant qu'il est encore temps !";

/// A final warning.
pub const FINAL_WARNING_MESSAGE_0: &'static str = "🔥 **JE VOUS L'AVAIS DIT !** 🔥\n\nVous avez pas voulu écouter, maintenant vous allez subir ! **10 secondes** et vous dégagez tous !";

/// A final warning.
pub const FINAL_WARNING_MESSAGE_1: &'static str = "⚡ **TROP TARD POUR PLEURER !** ⚡\n\nJ'vous avais prévenus mais vous m'avez ignoré ! Dans **10 secondes** c'est l'éjection totale !";

/// A final warning.
pub const FINAL_WARNING_MESSAGE_2: &'static str = "💀 **VOUS L'AUREZ VOULU !** 💀\n\nJ'ai été sympa, j'ai averti, mais vous restez là comme des mules ! **10 secondes** avant le carnage !";

/// A final warning.
pub const FINAL_WARNING_MESSAGE_3: &'static str = "🌪️ **LA TEMPÊTE ARRIVE !** 🌪️\n\nVous pensiez que je bluffais ? Eh ben non ! **10 secondes** avant que je vous sorte de là !";

/// A final warning.
pub const FINAL_WARNING_MESSAGE_4: &'static str = "🚨 **DERNIER AVERTISSEMENT !** 🚨\n\nC'était votre dernière chance et vous l'avez gâchée ! **10 secondes** avant disconnection forcée !";

/// A final warning.
pub const FINAL_WARNING_MESSAGE_5: &'static str = "⚰️ **RIP VOTRE TRANQUILLITÉ !** ⚰️\n\nVous m'avez forcé à être méchant ! Dans **10 secondes** je vous kick sans pitié !";

/// A final warning.
pub const FINAL_WARNING_MESSAGE_6: &'static str = "🎬 **FIN DU FILM !** 🎬\n\nLe générique va défiler sur vos têtes ! **10 secondes** avant le kick final !";

/// A final warning.
pub const FINAL_WARNING_MESSAGE_7: &'static str = "💣 **BOMBE À RETARDEMENT !** 💣\n\nTic-tac, tic-tac... **10 secondes** avant l'explosion ! J'vous avais dit de partir !";

/// A lenient message.
pub const MERCIFUL_MESSAGE_0: &'static str = "😌 **BON, ÇA PASSE POUR CETTE FOIS...** 😌\n\nVous avez de la chance, je suis en mode gentil aujourd'hui ! Mais la prochaine fois, je serai moins clément !";

/// A lenient message.
pub const MERCIFUL_MESSAGE_1: &'static str = "🎭 **SPECTACLE TERMINÉ !** 🎭\n\nJ'espère que vous avez apprécié la représentation ! Heureusement pour vous, c'était juste du théâtre... cette fois !";

/// A lenient message.
pub const MERCIFUL_MESSAGE_2: &'static str = "🦸‍♂️ **SUPER-HÉROS EN CONGÉ !** 🦸‍♂️\n\nMon pouvoir de kick est en maintenance ! Vous pouvez dormir tranquilles... pour le moment !";

/// A lenient message.
pub const MERCIFUL_MESSAGE_3: &'static str = "🎪 **CIRQUE FERMÉ !** 🎪\n\nLe numéro est terminé ! J'espère que ça vous a fait peur au moins ! Allez, filez au lit maintenant !";

/// A lenient message.
pub const MERCIFUL_MESSAGE_4: &'static str = "👑 **GRÂCE ROYALE !** 👑\n\nSa Majesté LeKickerFou vous accorde son pardon ! Mais ne comptez pas sur ma clémence éternellement !";

/// A lenient message.
pub const MERCIFUL_MESSAGE_5: &'static str = "🌟 **ÉTOILE FILANTE !** 🌟\n\nVotre vœu a été exaucé : pas de kick ce soir ! Mais les étoiles filantes sont rares... Méfiez-vous !";

/// A lenient message.
pub const MERCIFUL_MESSAGE_6: &'static str = "🎁 **CADEAU DE LA MAISON !** 🎁\n\nConsidérez ça comme un bonus ! La prochaine fois, je ne serai peut-être pas d'aussi bonne humeur !";

/// A lenient message.
pub const MERCIFUL_MESSAGE_7: &'static str = "🔮 **BOULE DE CRISTAL CLÉMENTE !** 🔮\n\nLes astres sont alignés en votre faveur ce soir ! Mais demain... qui sait ? 😏";

/// The picture of the first warning with this index; an index past the
/// last stands for the last.
pub open spec fn warning_gif_text(index: int) -> Seq<char> {
    if index == 0 {
        WARNING_GIF_0@
    } else if index == 1 {
        WARNING_GIF_1@
    } else if index == 2 {
        WARNING_GIF_2@
    } else if index == 3 {
        WARNING_GIF_3@
    } else if index == 4 {
        WARNING_GIF_4@
    } else if index == 5 {
        WARNING_GIF_5@
    } else if index == 6 {
        WARNING_GIF_6@
    } else {
        WARNING_GIF_7@
    }
}

/// The picture of the first warning with this index; an index past the
/// last stands for the last.
pub fn warning_gif(index: usize) -> (text: &'static str)
    ensures
        text@ == warning_gif_text(index as int),
{
    if index == 0 {
        WARNING_GIF_0
    } else if index == 1 {
        WARNING_GIF_1
    } else if index == 2 {
        WARNING_GIF_2
    } else if index == 3 {
        WARNING_GIF_3
    } else if index == 4 {
        WARNING_GIF_4
    } else if index == 5 {
        WARNING_GIF_5
    } else if index == 6 {
        WARNING_GIF_6
    } else {
        WARNING_GIF_7
    }
}

/// The picture of the final warning with this index; an index past the
/// last stands for the last.
pub open spec fn final_warning_gif_text(index: int) -> Seq<char> {
    if index == 0 {
        FINAL_WARNING_GIF_0@
    } else if index == 1 {
        FINAL_WARNING_GIF_1@
    } else if index == 2 {
        FINAL_WARNING_GIF_2@
    } else {
        FINAL_WARNING_GIF_3@
    }
}

/// The picture of the final warning with this index; an index past the
/// last stands for the last.
pub fn final_warning_gif(index: usize) -> (text: &'static str)
    ensures
        text@ == final_warning_gif_text(index as int),
{
    if index == 0 {
        FINAL_WARNING_GIF_0
    } else if index == 1 {
        FINAL_WARNING_GIF_1
    } else if index == 2 {
        FINAL_WARNING_GIF_2
    } else {
        FINAL_WARNING_GIF_3
    }
}

/// The picture of the lenient message with this index; an index past the
/// last stands for the last.
pub open spec fn merciful_gif_text(index: int) -> Seq<char> {
    if index == 0 {
        MERCIFUL_GIF_0@
    } else if index == 1 {
        MERCIFUL_GIF_1@
    } else {
        MERCIFUL_GIF_2@
    }
}

/// The picture of the lenient message with this index; an index past the
/// last stands for the last.
pub fn merciful_gif(index: usize) -> (text: &'static str)
    ensures
        text@ == merciful_gif_text(index as int),
{
    if index == 0 {
        MERCIFUL_GIF_0
    } else if index == 1 {
        MERCIFUL_GIF_1
    } else {
        MERCIFUL_GIF_2
    }
}

/// The first warning with this index, up to the number of seconds;
/// an index past the last stands for the last.
pub open spec fn warning_opening_text(index: int) -> Seq<char> {
    if index == 0 {
        WARNING_OPENING_0@
    } else if index == 1 {
        WARNING_OPENING_1@
    } else if index == 2 {
        WARNING_OPENING_2@
    } else if index == 3 {
        WARNING_OPENING_3@
    } else if index == 4 {
        WARNING_OPENING_4@
    } else if index == 5 {
        WARNING_OPENING_5@
    } else if index == 6 {
        WARNING_OPENING_6@
    } else if index == 7 {
        WARNING_OPENING_7@
    } else if index == 8 {
        WARNING_OPENING_8@
    } else {
        WARNING_OPENING_9@
    }
}

/// The first warning with this index, up to the number of seconds;
/// an index past the last stands for the last.
pub fn warning_opening(index: usize) -> (text: &'static str)
    ensures
        text@ == warning_opening_text(index as int),
{
    if index == 0 {
        WARNING_OPENING_0
    } else if index == 1 {
        WARNING_OPENING_1
    } else if index == 2 {
        WARNING_OPENING_2
    } else if index == 3 {
        WARNING_OPENING_3
    } else if index == 4 {
        WARNING_OPENING_4
    } else if index == 5 {
        WARNING_OPENING_5
    } else if index == 6 {
        WARNING_OPENING_6
    } else if index == 7 {
        WARNING_OPENING_7
    } else if index == 8 {
        WARNING_OPENING_8
    } else {
        WARNING_OPENING_9
    }
}

/// The first warning with this index, from the number of seconds
/// on; an index past the last stands for the last.
pub open spec fn warning_closing_text(index: int) -> Seq<char> {
    if index == 0 {
        WARNING_CLOSING_0@
    } else if index == 1 {
        WARNING_CLOSING_1@
    } else if index == 2 {
        WARNING_CLOSING_2@
    } else if index == 3 {
        WARNING_CLOSING_3@
    } else if index == 4 {
        WARNING_CLOSING_4@
    } else if index == 5 {
        WARNING_CLOSING_5@
    } else if index == 6 {
        WARNING_CLOSING_6@
    } else if index == 7 {
        WARNING_CLOSING_7@
    } else if index == 8 {
        WARNING_CLOSING_8@
    } else {
        WARNING_CLOSING_9@
    }
}

/// The first warning with this index, from the number of seconds
/// on; an index past the last stands for the last.
pub fn warning_closing(index: usize) -> (text: &'static str)
    ensures
        text@ == warning_closing_text(index as int),
{
    if index == 0 {
        WARNING_CLOSING_0
    } else if index == 1 {
        WARNING_CLOSING_1
    } else if index == 2 {
        WARNING_CLOSING_2
    } else if index == 3 {
        WARNING_CLOSING_3
    } else if index == 4 {
        WARNING_CLOSING_4
    } else if index == 5 {
        WARNING_CLOSING_5
    } else if index == 6 {
        WARNING_CLOSING_6
    } else if index == 7 {
        WARNING_CLOSING_7
    } else if index == 8 {
        WARNING_CLOSING_8
    } else {
        WARNING_CLOSING_9
    }
}

/// The final warning with this index; an index past the
/// last stands for the last.
pub open spec fn final_warning_message_text(index: int) -> Seq<char> {
    if index == 0 {
        FINAL_WARNING_MESSAGE_0@
    } else if index == 1 {
        FINAL_WARNING_MESSAGE_1@
    } else if index == 2 {
        FINAL_WARNING_MESSAGE_2@
    } else if index == 3 {
        FINAL_WARNING_MESSAGE_3@
    } else if index == 4 {
        FINAL_WARNING_MESSAGE_4@
    } else if index == 5 {
        FINAL_WARNING_MESSAGE_5@
    } else if index == 6 {
        FINAL_WARNING_MESSAGE_6@
    } else {
        FINAL_WARNING_MESSAGE_7@
    }
}

/// The final warning with this index; an index past the
/// last stands for the last.
pub fn final_warning_message(index: usize) -> (text: &'static str)
    ensures
        text@ == final_warning_message_text(index as int),
{
    if index == 0 {
        FINAL_WARNING_MESSAGE_0
    } else if index == 1 {
        FINAL_WARNING_MESSAGE_1
    } else if index == 2 {
        FINAL_WARNING_MESSAGE_2
    } else if index == 3 {
        FINAL_WARNING_MESSAGE_3
    } else if index == 4 {
        FINAL_WARNING_MESSAGE_4
    } else if index == 5 {
        FINAL_WARNING_MESSAGE_5
    } else if index == 6 {
        FINAL_WARNING_MESSAGE_6
    } else {
        FINAL_WARNING_MESSAGE_7
    }
}

/// The lenient message with this index; an index past the
/// last stands for the last.
pub open spec fn merciful_message_text(index: int) -> Seq<char> {
    if index == 0 {
        MERCIFUL_MESSAGE_0@
    } else if index == 1 {
        MERCIFUL_MESSAGE_1@
    } else if index == 2 {
        MERCIFUL_MESSAGE_2@
    } else if index == 3 {
        MERCIFUL_MESSAGE_3@
    } else if index == 4 {
        MERCIFUL_MESSAGE_4@
    } else if index == 5 {
        MERCIFUL_MESSAGE_5@
    } else if index == 6 {
        MERCIFUL_MESSAGE_6@
    } else {
        MERCIFUL_MESSAGE_7@
    }
}

/// The lenient message with this index; an index past the
/// last stands for the last.
pub fn merciful_message(index: usize) -> (text: &'static str)
    ensures
        text@ == merciful_message_text(index as int),
{
    if index == 0 {
        MERCIFUL_MESSAGE_0
    } else if index == 1 {
        MERCIFUL_MESSAGE_1
    } else if index == 2 {
        MERCIFUL_MESSAGE_2
    } else if index == 3 {
        MERCIFUL_MESSAGE_3
    } else if index == 4 {
        MERCIFUL_MESSAGE_4
    } else if index == 5 {
        MERCIFUL_MESSAGE_5
    } else if index == 6 {
        MERCIFUL_MESSAGE_6
    } else {
        MERCIFUL_MESSAGE_7
    }
}

} // verus!
