use vstd::prelude::*;

verus! {

/// Opening of the instruction sent with every transcript; the transcript
/// follows it verbatim.
pub const PROMPT_HEAD: &'static str = "以下の文章は音声の文字起こしであり、誤字脱字や不完全な部分が含まれています。内容を慎重に読み取り、整合性を持たせて理解してください。\n\n

1. 重要な項目をリストアップしてください。\n\n

2. リストアップした各項目について、以下の点を考慮しながら要約してください：\n
   - 対象：リスナー、参加者、参加意欲はあったが参加できなかった方々\n
   - 目的：対象の理解促進\n

3. 出力形式：\n
   マークダウン形式で、以下の構造を使用してください：\n

   ## 重要項目1\n
   - 要約文1\n
   - 要約文2\n
   ※ 補足情報（必要な場合）\n

   ## 重要項目2\n
   ...（以下同様）\n

4. 専門用語や略語がある場合は、簡単な説明を付け加えてください。\n\n

5. 要約全体の長さは、元の文章の約1/3を目安としてください。\n\n

以下に文字起こしの本文を示します：\n

```";

/// Closing of the instruction, right after the transcript.
pub const PROMPT_TAIL: &'static str = "```";

/// Default system instruction: language and tone of the summary.
pub const SYSTEM_INSTRUCTION: &'static str = "出力は日本語かつ、理解しやすい言葉を使用し、可能であれば補足情報を付け加えてください。";

} // verus!
